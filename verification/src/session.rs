use vstd::prelude::*;
use std::rc::Rc;
use crate::database::{
    bindings_of, can_answer, can_run, delete_arguments, fetched_from, row_cells, secret_of_row, Cell,
    Store, CREATE_TABLE_SQL, DELETE_SQL, SELECT_ALL_SQL,
};
use crate::forms::{CreateSecret, CreateSecretView, DecryptSecret, UpdateSecret, UpdateSecretView};
use crate::types::Secret;

verus! {

/// A refresh that succeeds shows one secret for each row that the store's
/// query handed out, in order, each the secret that its row stands for; so
/// it shows no secret only when the query can answer with no rows at all.
pub proof fn refreshed_list_is_the_answer(rows: Seq<sqlite::Row>, secrets: Seq<Secret>)
    requires
        fetched_from(rows, secrets),
    ensures
        secrets.len() == rows.len(),
        forall|i: int|
            0 <= i < secrets.len() ==> secret_of_row(row_cells(rows[i])) == Some(
                #[trigger] secrets[i]@,
            ),
        secrets.len() == 0 ==> can_answer(
            SELECT_ALL_SQL@,
            Map::<int, Cell>::empty(),
            Seq::<Map<Seq<char>, Cell>>::empty(),
        ),
{
    if secrets.len() == 0 {
        assert(rows.map_values(|row: sqlite::Row| row_cells(row)) =~= Seq::<
            Map<Seq<char>, Cell>,
        >::empty());
    }
}

/// Calls `Rc::clone`, which makes another pointer to the same store.
/// Trusted: the new pointer stands for the same value (std documents that
/// both point to the same allocation).
#[verifier::external_body]
fn share_store(store: &Rc<Store>) -> (r: Rc<Store>)
    ensures
        r == *store,
{
    Rc::clone(store)
}

/// The state of the secret store's window: the master key typed in, the
/// store, the secrets last fetched from it, and the open forms.
pub struct SecretStoreApp {
    pub encryption_key: String,
    pub data_store: Rc<Store>,
    pub secrets: Vec<Secret>,
    pub create_secret: CreateSecret,
    pub updatable_secrets: Vec<UpdateSecret>,
    pub decoded_secrets: Vec<DecryptSecret>,
}

/// What the window's state holds.
pub struct SecretStoreAppView {
    pub encryption_key: Seq<char>,
    pub data_store: Rc<Store>,
    pub secrets: Seq<Secret>,
    pub create_secret: CreateSecretView,
    pub updatable_secrets: Seq<UpdateSecret>,
    pub decoded_secrets: Seq<DecryptSecret>,
}

impl View for SecretStoreApp {
    type V = SecretStoreAppView;

    open spec fn view(&self) -> SecretStoreAppView {
        SecretStoreAppView {
            encryption_key: self.encryption_key@,
            data_store: self.data_store,
            secrets: self.secrets@,
            create_secret: self.create_secret@,
            updatable_secrets: self.updatable_secrets@,
            decoded_secrets: self.decoded_secrets@,
        }
    }
}

impl SecretStoreApp {
    /// Opens the store at `path`, makes sure that it has its table, and
    /// starts with no key, no secrets and no open form.
    pub fn open(path: String) -> (r: Result<SecretStoreApp, sqlite::Error>)
        ensures
            path@.contains('\0') ==> r is Err,
            r matches Ok(app) ==> {
                &&& app@.data_store.file() == path@
                &&& can_run(CREATE_TABLE_SQL@, Map::<int, Cell>::empty())
                &&& app@.encryption_key == Seq::<char>::empty()
                &&& app@.secrets.len() == 0
                &&& app@.updatable_secrets.len() == 0
                &&& app@.decoded_secrets.len() == 0
                &&& app@.create_secret == (CreateSecretView {
                    secret_username: Seq::empty(),
                    secret_password: Seq::empty(),
                    secret_desc: Seq::empty(),
                    encryption_key: Seq::empty(),
                    encrypted_pass: Seq::empty(),
                    show_window: false,
                    response_message: Seq::empty(),
                    data_store: None,
                })
            },
    {
        let store = match Store::connect(path) {
            Ok(store) => store,
            Err(error) => return Err(error),
        };
        if let Err(error) = store.create_secrets_table() {
            return Err(error);
        }
        Ok(
            SecretStoreApp {
                encryption_key: String::new(),
                data_store: Rc::new(store),
                secrets: Vec::new(),
                create_secret: CreateSecret::default(),
                updatable_secrets: Vec::new(),
                decoded_secrets: Vec::new(),
            },
        )
    }

    /// Takes the answer of a fetch: its secrets, or none when the store
    /// failed.
    pub fn apply_fetch(&mut self, fetched: Result<Vec<Secret>, sqlite::Error>)
        ensures
            final(self)@ == (SecretStoreAppView {
                secrets: match fetched {
                    Ok(secrets) => secrets@,
                    Err(_) => Seq::<Secret>::empty(),
                },
                ..old(self)@
            }),
    {
        self.secrets = match fetched {
            Ok(secrets) => secrets,
            Err(_) => Vec::new(),
        };
    }

    /// Fetches the secrets again (`Store::fetch_secrets`) and takes the
    /// answer: on success the list is exactly the secrets that the store's
    /// query handed out, and `Ok` comes back; when the store fails, the list
    /// is empty and the store's error comes back.
    pub fn refresh_secrets(&mut self) -> (r: Result<(), sqlite::Error>)
        ensures
            final(self)@ == (SecretStoreAppView { secrets: final(self)@.secrets, ..old(self)@ }),
            r is Ok ==> exists|rows: Seq<sqlite::Row>|
                #[trigger] fetched_from(rows, final(self)@.secrets),
            r is Err ==> final(self)@.secrets.len() == 0,
    {
        match self.data_store.fetch_secrets() {
            Ok(secrets) => {
                self.secrets = secrets;
                Ok(())
            },
            Err(error) => {
                self.secrets = Vec::new();
                Err(error)
            },
        }
    }

    /// Opens an empty creation form that encrypts under the current master
    /// key and writes to the store.
    pub fn open_create_form(&mut self)
        ensures
            final(self)@ == (SecretStoreAppView {
                create_secret: CreateSecretView {
                    secret_username: Seq::empty(),
                    secret_password: Seq::empty(),
                    secret_desc: Seq::empty(),
                    encryption_key: old(self)@.encryption_key,
                    encrypted_pass: Seq::empty(),
                    show_window: true,
                    response_message: Seq::empty(),
                    data_store: Some(old(self)@.data_store),
                },
                ..old(self)@
            }),
    {
        self.create_secret = CreateSecret::new(
            String::new(),
            String::new(),
            String::new(),
            self.encryption_key.clone(),
            share_store(&self.data_store),
        );
    }

    /// Removes the secret `id` from the store and fetches the secrets
    /// again; the store's error is handed back, with nothing fetched.
    pub fn delete_secret(&mut self, id: usize) -> (r: Result<(), sqlite::Error>)
        ensures
            final(self)@ == (SecretStoreAppView { secrets: final(self)@.secrets, ..old(self)@ }),
            r is Err ==> final(self)@.secrets == old(self)@.secrets,
            r is Ok ==> can_run(DELETE_SQL@, bindings_of(delete_arguments(id))),
            r is Ok ==> final(self)@.secrets.len() == 0 || exists|rows: Seq<sqlite::Row>|
                #[trigger] fetched_from(rows, final(self)@.secrets),
    {
        if let Err(error) = self.data_store.delete_secret(id) {
            return Err(error);
        }
        let _refreshed = self.refresh_secrets();
        Ok(())
    }

    /// Opens an update form for `secret`, filled with its username,
    /// description and (stored) password, under the current master key.
    pub fn request_update(&mut self, secret: &Secret)
        ensures
            final(self)@.encryption_key == old(self)@.encryption_key,
            final(self)@.data_store == old(self)@.data_store,
            final(self)@.secrets == old(self)@.secrets,
            final(self)@.create_secret == old(self)@.create_secret,
            final(self)@.decoded_secrets == old(self)@.decoded_secrets,
            final(self)@.updatable_secrets.len() == old(self)@.updatable_secrets.len() + 1,
            final(self)@.updatable_secrets.drop_last() == old(self)@.updatable_secrets,
            final(self)@.updatable_secrets.last()@ == (UpdateSecretView {
                id: secret@.id as u64,
                secret: secret@,
                show_window: true,
                user_to_update: secret@.username,
                desc_to_update: secret@.description,
                pass_to_update: secret@.password,
                encoded_new_pass: Seq::empty(),
                encryption_key: old(self)@.encryption_key,
                response_message: Seq::empty(),
                data_store: Some(old(self)@.data_store),
            }),
    {
        let form = UpdateSecret::new(
            secret.get_id() as u64,
            secret.get_username(),
            secret.get_description(),
            secret.get_password(),
            self.encryption_key.clone(),
            secret.clone(),
            share_store(&self.data_store),
        );
        self.updatable_secrets.push(form);
    }

    /// Opens a decryption form for the stored password of `secret`, under
    /// the current master key.
    pub fn request_decrypt(&mut self, secret: &Secret)
        ensures
            final(self)@.encryption_key == old(self)@.encryption_key,
            final(self)@.data_store == old(self)@.data_store,
            final(self)@.secrets == old(self)@.secrets,
            final(self)@.create_secret == old(self)@.create_secret,
            final(self)@.updatable_secrets == old(self)@.updatable_secrets,
            final(self)@.decoded_secrets.len() == old(self)@.decoded_secrets.len() + 1,
            final(self)@.decoded_secrets.drop_last() == old(self)@.decoded_secrets,
            final(self)@.decoded_secrets.last().id == secret@.id as u64,
            final(self)@.decoded_secrets.last().encoded_pass@ == secret@.password,
            final(self)@.decoded_secrets.last().encryption_key@ == old(self)@.encryption_key,
            final(self)@.decoded_secrets.last().decoded_pass@ == Seq::<char>::empty(),
            final(self)@.decoded_secrets.last().show_window,
    {
        let form = DecryptSecret::new(
            secret.get_id() as u64,
            secret.get_password(),
            self.encryption_key.clone(),
        );
        self.decoded_secrets.push(form);
    }
}

} // verus!
