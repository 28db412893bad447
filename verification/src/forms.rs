use vstd::prelude::*;
use std::rc::Rc;
use crate::crypto::{decrypt_from_base64, decrypted_base64, encrypt_to_base64, encrypted_base64};
use crate::database::{
    bindings_of, can_run, describe_error, insert_arguments, update_arguments, Store, INSERT_SQL,
    UPDATE_SQL,
};
use crate::types::{Secret, SecretView};

verus! {

/// What the decryption form shows for the stored text `encoded` under the
/// master key `key`: the decrypted password, or a report of the error.
pub open spec fn revealed_text(key: Seq<char>, encoded: Seq<char>) -> Seq<char> {
    match decrypted_base64(key, encoded) {
        Ok(plain) => plain,
        Err(error) => "Can't decrypt secret. Provided Key might be invalid, error: "@ + error,
    }
}

/// The form that shows the decrypted password of one secret.
#[derive(Clone)]
pub struct DecryptSecret {
    pub id: u64,
    pub encoded_pass: String,
    pub encryption_key: String,
    pub decoded_pass: String,
    pub show_window: bool,
}

impl Default for DecryptSecret {
    /// An empty form, shown.
    fn default() -> (r: Self)
        ensures
            r.id == 0,
            r.encoded_pass@ == Seq::<char>::empty(),
            r.encryption_key@ == Seq::<char>::empty(),
            r.decoded_pass@ == Seq::<char>::empty(),
            r.show_window,
    {
        DecryptSecret {
            id: 0,
            encoded_pass: String::new(),
            encryption_key: String::new(),
            decoded_pass: String::new(),
            show_window: true,
        }
    }
}

impl DecryptSecret {
    /// The form for the secret `id` whose stored password is `encoded_pass`,
    /// to be decrypted under `encryption_key`; nothing is decrypted yet.
    pub fn new(id: u64, encoded_pass: String, encryption_key: String) -> (r: DecryptSecret)
        ensures
            r.id == id,
            r.encoded_pass@ == encoded_pass@,
            r.encryption_key@ == encryption_key@,
            r.decoded_pass@ == Seq::<char>::empty(),
            r.show_window,
    {
        DecryptSecret {
            id: id,
            encoded_pass: encoded_pass,
            encryption_key: encryption_key,
            decoded_pass: String::new(),
            show_window: true,
        }
    }

    /// With a master key given, decrypts the stored password into
    /// `decoded_pass` (or reports why it cannot); without one, changes
    /// nothing. A password that was encrypted under the same key comes back
    /// as it was.
    pub fn decrypt_secret(&mut self)
        ensures
            final(self).id == old(self).id,
            final(self).encoded_pass == old(self).encoded_pass,
            final(self).encryption_key == old(self).encryption_key,
            final(self).show_window == old(self).show_window,
            old(self).encryption_key@.len() == 0 ==> final(self).decoded_pass
                == old(self).decoded_pass,
            old(self).encryption_key@.len() > 0 ==> final(self).decoded_pass@ == revealed_text(
                old(self).encryption_key@,
                old(self).encoded_pass@,
            ),
            forall|plain: Seq<char>|
                old(self).encryption_key@.len() > 0 && #[trigger] encrypted_base64(
                    old(self).encryption_key@,
                    plain,
                ) == old(self).encoded_pass@ ==> final(self).decoded_pass@ == plain,
    {
        if !self.encryption_key.as_str().is_empty() {
            let secret_pass = match decrypt_from_base64(
                self.encryption_key.as_str(),
                self.encoded_pass.as_str(),
            ) {
                Ok(pass) => pass,
                Err(error) => {
                    let mut report = String::from_str(
                        "Can't decrypt secret. Provided Key might be invalid, error: ",
                    );
                    report.append(error.as_str());
                    report
                },
            };
            self.decoded_pass = secret_pass;
        }
    }
}

} // verus!

verus! {

/// The password that the update form stores for the typed password
/// `typed`: the stored (already encrypted) password when it was left as it
/// was, else `typed` encrypted under `key`.
pub open spec fn password_to_store(typed: Seq<char>, stored: Seq<char>, key: Seq<char>) -> Seq<
    char,
> {
    if typed == stored {
        typed
    } else {
        encrypted_base64(key, typed)
    }
}

/// The form that edits the username, the description and the password of
/// one stored secret.
#[derive(Clone)]
pub struct UpdateSecret {
    pub id: u64,
    pub secret: Secret,
    pub show_window: bool,
    pub user_to_update: String,
    pub desc_to_update: String,
    pub pass_to_update: String,
    pub encoded_new_pass: String,
    pub encryption_key: String,
    pub response_message: String,
    pub data_store: Option<Rc<Store>>,
}

/// What an update form holds.
pub struct UpdateSecretView {
    pub id: u64,
    pub secret: SecretView,
    pub show_window: bool,
    pub user_to_update: Seq<char>,
    pub desc_to_update: Seq<char>,
    pub pass_to_update: Seq<char>,
    pub encoded_new_pass: Seq<char>,
    pub encryption_key: Seq<char>,
    pub response_message: Seq<char>,
    pub data_store: Option<Rc<Store>>,
}

impl View for UpdateSecret {
    type V = UpdateSecretView;

    open spec fn view(&self) -> UpdateSecretView {
        UpdateSecretView {
            id: self.id,
            secret: self.secret@,
            show_window: self.show_window,
            user_to_update: self.user_to_update@,
            desc_to_update: self.desc_to_update@,
            pass_to_update: self.pass_to_update@,
            encoded_new_pass: self.encoded_new_pass@,
            encryption_key: self.encryption_key@,
            response_message: self.response_message@,
            data_store: self.data_store,
        }
    }
}

impl Default for UpdateSecret {
    /// An empty form, hidden, with no store.
    fn default() -> (r: Self)
        ensures
            r@.id == 0,
            r@.secret == (SecretView {
                id: 0,
                username: Seq::empty(),
                password: Seq::empty(),
                description: Seq::empty(),
            }),
            !r@.show_window,
            r@.user_to_update == Seq::<char>::empty(),
            r@.desc_to_update == Seq::<char>::empty(),
            r@.pass_to_update == Seq::<char>::empty(),
            r@.encoded_new_pass == Seq::<char>::empty(),
            r@.encryption_key == Seq::<char>::empty(),
            r@.response_message == Seq::<char>::empty(),
            r@.data_store is None,
    {
        UpdateSecret {
            id: 0,
            secret: Secret::default(),
            show_window: false,
            user_to_update: String::new(),
            desc_to_update: String::new(),
            pass_to_update: String::new(),
            encoded_new_pass: String::new(),
            encryption_key: String::new(),
            response_message: String::new(),
            data_store: None,
        }
    }
}

impl UpdateSecret {
    /// The form for `secret` (whose identifier is `id`), filled with the
    /// given username, description and password, shown, and writing to
    /// `data_store`.
    pub fn new(
        id: u64,
        user_to_update: String,
        desc_to_update: String,
        pass_to_update: String,
        encrpytion_key: String,
        secret: Secret,
        data_store: Rc<Store>,
    ) -> (r: UpdateSecret)
        ensures
            r@.id == id,
            r@.secret == secret@,
            r@.show_window,
            r@.user_to_update == user_to_update@,
            r@.desc_to_update == desc_to_update@,
            r@.pass_to_update == pass_to_update@,
            r@.encoded_new_pass == Seq::<char>::empty(),
            r@.encryption_key == encrpytion_key@,
            r@.response_message == Seq::<char>::empty(),
            r@.data_store == Some(data_store),
    {
        UpdateSecret {
            id: id,
            secret: secret,
            show_window: true,
            user_to_update: user_to_update,
            desc_to_update: desc_to_update,
            pass_to_update: pass_to_update,
            encoded_new_pass: String::new(),
            encryption_key: encrpytion_key,
            response_message: String::new(),
            data_store: Some(data_store),
        }
    }

    /// Whether the form has a store to write to.
    pub fn has_store(&self) -> (r: bool)
        ensures
            r == self@.data_store is Some,
    {
        self.data_store.is_some()
    }

    /// The report that the form shows.
    pub fn response_message(&self) -> (r: String)
        ensures
            r@ == self@.response_message,
    {
        self.response_message.clone()
    }

    /// What submitting hands to the store: the identifier of the row, the
    /// typed username, the password to store (see `password_to_store`) and
    /// the typed description.
    pub fn update_request(&self) -> (r: (usize, String, String, String))
        ensures
            r.0 == self@.id as usize,
            r.1@ == self@.user_to_update,
            r.2@ == password_to_store(
                self@.pass_to_update,
                self@.secret.password,
                self@.encryption_key,
            ),
            r.3@ == self@.desc_to_update,
    {
        let stored = self.secret.get_password();
        let password = if self.pass_to_update == stored {
            self.pass_to_update.clone()
        } else {
            encrypt_to_base64(self.encryption_key.as_str(), self.pass_to_update.as_str())
        };
        (self.id as usize, self.user_to_update.clone(), password, self.desc_to_update.clone())
    }

    /// Submits the changes. With a master key given, the password to store
    /// is kept in `encoded_new_pass` and the request of `update_request` is
    /// handed back, for the store's `update_secret`; without one, the form
    /// reports that nothing can be written and nothing is handed back.
    pub fn submit_changes(&mut self) -> (r: Option<(usize, String, String, String)>)
        ensures
            old(self)@.encryption_key.len() == 0 ==> {
                &&& r is None
                &&& final(self)@ == (UpdateSecretView {
                    response_message:
                        "Unable to perform updates. Please provide a valid encryption key first!"@,
                    ..old(self)@
                })
            },
            old(self)@.encryption_key.len() > 0 ==> {
                &&& final(self)@ == (UpdateSecretView {
                    encoded_new_pass: password_to_store(
                        old(self)@.pass_to_update,
                        old(self)@.secret.password,
                        old(self)@.encryption_key,
                    ),
                    ..old(self)@
                })
                &&& r matches Some(request) && {
                    &&& request.0 == old(self)@.id as usize
                    &&& request.1@ == old(self)@.user_to_update
                    &&& request.2@ == final(self)@.encoded_new_pass
                    &&& request.3@ == old(self)@.desc_to_update
                }
            },
    {
        if !self.encryption_key.as_str().is_empty() {
            let (id, username, password, description) = self.update_request();
            self.encoded_new_pass = password.clone();
            Some((id, username, password, description))
        } else {
            self.response_message = String::from_str(
                "Unable to perform updates. Please provide a valid encryption key first!",
            );
            None
        }
    }

    /// Takes the store's answer to a submitted update: the form closes when
    /// the row was written, and the answer is handed back.
    pub fn finish_update(&mut self, outcome: Result<(), sqlite::Error>) -> (r: Result<
        (),
        sqlite::Error,
    >)
        ensures
            r == outcome,
            final(self)@ == (UpdateSecretView {
                show_window: if outcome is Ok {
                    false
                } else {
                    old(self)@.show_window
                },
                ..old(self)@
            }),
    {
        if outcome.is_ok() {
            self.show_window = false;
        }
        outcome
    }

    /// What the "Submit changes" button does: submits the changes
    /// (`submit_changes`), hands the request to the form's store and takes
    /// its answer (`finish_update`). When the store answers `Ok`, the
    /// `UPDATE_SQL` statement with the request bound has run, and the
    /// password in it is the stored one or the typed one encrypted.
    pub fn submit_to_store(&mut self) -> (r: Result<(), sqlite::Error>)
        requires
            old(self)@.data_store is Some,
        ensures
            old(self)@.encryption_key.len() == 0 ==> {
                &&& r is Ok
                &&& final(self)@ == (UpdateSecretView {
                    response_message:
                        "Unable to perform updates. Please provide a valid encryption key first!"@,
                    ..old(self)@
                })
            },
            old(self)@.encryption_key.len() > 0 ==> {
                &&& final(self)@ == (UpdateSecretView {
                    encoded_new_pass: password_to_store(
                        old(self)@.pass_to_update,
                        old(self)@.secret.password,
                        old(self)@.encryption_key,
                    ),
                    show_window: if r is Ok {
                        false
                    } else {
                        old(self)@.show_window
                    },
                    ..old(self)@
                })
                &&& r is Ok ==> can_run(
                    UPDATE_SQL@,
                    bindings_of(
                        update_arguments(
                            old(self)@.id as usize,
                            old(self)@.user_to_update,
                            password_to_store(
                                old(self)@.pass_to_update,
                                old(self)@.secret.password,
                                old(self)@.encryption_key,
                            ),
                            old(self)@.desc_to_update,
                        ),
                    ),
                )
            },
    {
        match self.submit_changes() {
            Some((id, username, password, description)) => {
                let outcome = match &self.data_store {
                    Some(store) => store.update_secret(id, username, password, description),
                    None => {
                        assert(false);
                        Ok(())
                    },
                };
                self.finish_update(outcome)
            },
            None => Ok(()),
        }
    }
}

} // verus!

verus! {

/// Whether `message` reports that the store refused a new secret.
pub open spec fn reports_refusal(message: Seq<char>) -> bool {
    let prefix = "Error adding secret. Error Message : "@;
    &&& prefix.len() <= message.len()
    &&& message.subrange(0, prefix.len() as int) == prefix
}

/// The form that creates a new secret.
#[derive(Clone)]
pub struct CreateSecret {
    pub secret_username: String,
    pub secret_password: String,
    pub secret_desc: String,
    pub encryption_key: String,
    pub encrypted_pass: String,
    pub show_window: bool,
    pub response_message: String,
    pub data_store: Option<Rc<Store>>,
}

/// What a creation form holds.
pub struct CreateSecretView {
    pub secret_username: Seq<char>,
    pub secret_password: Seq<char>,
    pub secret_desc: Seq<char>,
    pub encryption_key: Seq<char>,
    pub encrypted_pass: Seq<char>,
    pub show_window: bool,
    pub response_message: Seq<char>,
    pub data_store: Option<Rc<Store>>,
}

impl View for CreateSecret {
    type V = CreateSecretView;

    open spec fn view(&self) -> CreateSecretView {
        CreateSecretView {
            secret_username: self.secret_username@,
            secret_password: self.secret_password@,
            secret_desc: self.secret_desc@,
            encryption_key: self.encryption_key@,
            encrypted_pass: self.encrypted_pass@,
            show_window: self.show_window,
            response_message: self.response_message@,
            data_store: self.data_store,
        }
    }
}

impl Default for CreateSecret {
    /// An empty form, hidden, with no store.
    fn default() -> (r: Self)
        ensures
            r@ == (CreateSecretView {
                secret_username: Seq::empty(),
                secret_password: Seq::empty(),
                secret_desc: Seq::empty(),
                encryption_key: Seq::empty(),
                encrypted_pass: Seq::empty(),
                show_window: false,
                response_message: Seq::empty(),
                data_store: None,
            }),
    {
        CreateSecret {
            secret_username: String::new(),
            secret_password: String::new(),
            secret_desc: String::new(),
            encryption_key: String::new(),
            encrypted_pass: String::new(),
            show_window: false,
            response_message: String::new(),
            data_store: None,
        }
    }
}

impl CreateSecret {
    /// The form filled with the given username, password and description,
    /// shown, encrypting under `encryption_key` and writing to `data_store`.
    pub fn new(
        secret_username: String,
        secret_password: String,
        secret_desc: String,
        encryption_key: String,
        data_store: Rc<Store>,
    ) -> (r: CreateSecret)
        ensures
            r@ == (CreateSecretView {
                secret_username: secret_username@,
                secret_password: secret_password@,
                secret_desc: secret_desc@,
                encryption_key: encryption_key@,
                encrypted_pass: Seq::empty(),
                show_window: true,
                response_message: Seq::empty(),
                data_store: Some(data_store),
            }),
    {
        CreateSecret {
            secret_username: secret_username,
            secret_password: secret_password,
            secret_desc: secret_desc,
            encryption_key: encryption_key,
            encrypted_pass: String::new(),
            show_window: true,
            response_message: String::new(),
            data_store: Some(data_store),
        }
    }

    /// Whether the form has a store to write to.
    pub fn has_store(&self) -> (r: bool)
        ensures
            r == self@.data_store is Some,
    {
        self.data_store.is_some()
    }

    /// The report that the form shows.
    pub fn response_message(&self) -> (r: String)
        ensures
            r@ == self@.response_message,
    {
        self.response_message.clone()
    }

    /// With a master key given, encrypts the typed password under it into
    /// `encrypted_pass`; without one, changes nothing.
    pub fn encrypt_secret(&mut self)
        ensures
            old(self)@.encryption_key.len() == 0 ==> final(self)@ == old(self)@,
            old(self)@.encryption_key.len() > 0 ==> final(self)@ == (CreateSecretView {
                encrypted_pass: encrypted_base64(
                    old(self)@.encryption_key,
                    old(self)@.secret_password,
                ),
                ..old(self)@
            }),
    {
        if !self.encryption_key.as_str().is_empty() {
            self.encrypted_pass = encrypt_to_base64(
                self.encryption_key.as_str(),
                self.secret_password.as_str(),
            );
        }
    }

    /// The secret that submitting hands to the store: identifier 0 (the
    /// database assigns one), the typed username, the encrypted password
    /// and the typed description.
    pub fn secret_to_insert(&self) -> (r: Secret)
        ensures
            r@ == (SecretView {
                id: 0,
                username: self@.secret_username,
                password: self@.encrypted_pass,
                description: self@.secret_desc,
            }),
    {
        Secret::new(
            0,
            self.secret_username.clone(),
            self.encrypted_pass.clone(),
            self.secret_desc.clone(),
        )
    }

    /// Reports what the store answered to a new secret: success, or the
    /// text of its error after a fixed prefix.
    pub fn report_outcome(&mut self, outcome: Result<(), String>)
        ensures
            final(self)@ == (CreateSecretView {
                response_message: match outcome {
                    Ok(()) => "Secret Added !"@,
                    Err(error) => "Error adding secret. Error Message : "@ + error@,
                },
                ..old(self)@
            }),
    {
        match outcome {
            Ok(()) => {
                self.response_message = String::from_str("Secret Added !");
            },
            Err(error) => {
                let mut report = String::from_str("Error adding secret. Error Message : ");
                report.append(error.as_str());
                self.response_message = report;
            },
        }
    }

    /// Submits the form. With a master key given, the password is
    /// encrypted and the secret of `secret_to_insert` is handed back, for the
    /// store's `insert_secret` (whose answer goes to `report_outcome`);
    /// without one, the form reports that nothing can be created and nothing
    /// is handed back.
    pub fn submit(&mut self) -> (r: Option<Secret>)
        ensures
            old(self)@.encryption_key.len() == 0 ==> {
                &&& r is None
                &&& final(self)@ == (CreateSecretView {
                    response_message: "Unable to create Secret, encryption key not available."@,
                    ..old(self)@
                })
            },
            old(self)@.encryption_key.len() > 0 ==> {
                &&& final(self)@ == (CreateSecretView {
                    encrypted_pass: encrypted_base64(
                        old(self)@.encryption_key,
                        old(self)@.secret_password,
                    ),
                    ..old(self)@
                })
                &&& r matches Some(secret) && secret@ == (SecretView {
                    id: 0,
                    username: old(self)@.secret_username,
                    password: encrypted_base64(
                        old(self)@.encryption_key,
                        old(self)@.secret_password,
                    ),
                    description: old(self)@.secret_desc,
                })
            },
    {
        if !self.encryption_key.as_str().is_empty() {
            self.encrypt_secret();
            Some(self.secret_to_insert())
        } else {
            self.response_message = String::from_str(
                "Unable to create Secret, encryption key not available.",
            );
            None
        }
    }

    /// What the "Submit" button does: submits the form (`submit`), hands
    /// the secret to the form's store and reports its answer
    /// (`report_outcome`). The form reports success only when the
    /// `INSERT_SQL` statement has run with the typed username, the typed
    /// password encrypted under the master key, and the typed description.
    pub fn submit_to_store(&mut self)
        requires
            old(self)@.encryption_key.len() > 0 ==> old(self)@.data_store is Some,
        ensures
            old(self)@.encryption_key.len() == 0 ==> final(self)@ == (CreateSecretView {
                response_message: "Unable to create Secret, encryption key not available."@,
                ..old(self)@
            }),
            old(self)@.encryption_key.len() > 0 ==> {
                &&& final(self)@ == (CreateSecretView {
                    encrypted_pass: encrypted_base64(
                        old(self)@.encryption_key,
                        old(self)@.secret_password,
                    ),
                    response_message: final(self)@.response_message,
                    ..old(self)@
                })
                &&& final(self)@.response_message == "Secret Added !"@ ==> can_run(
                    INSERT_SQL@,
                    bindings_of(
                        insert_arguments(
                            SecretView {
                                id: 0,
                                username: old(self)@.secret_username,
                                password: encrypted_base64(
                                    old(self)@.encryption_key,
                                    old(self)@.secret_password,
                                ),
                                description: old(self)@.secret_desc,
                            },
                        ),
                    ),
                )
                &&& final(self)@.response_message != "Secret Added !"@ ==> reports_refusal(
                    final(self)@.response_message,
                )
            },
    {
        match self.submit() {
            Some(secret) => {
                let outcome = match &self.data_store {
                    Some(store) => store.insert_secret(&secret),
                    None => {
                        assert(false);
                        Ok(())
                    },
                };
                let answer = match outcome {
                    Ok(()) => Ok(()),
                    Err(error) => Err(describe_error(&error)),
                };
                self.report_outcome(answer);
                proof {
                    let prefix = "Error adding secret. Error Message : "@;
                    reveal_strlit("Error adding secret. Error Message : ");
                    reveal_strlit("Secret Added !");
                    if answer is Err {
                        assert(self@.response_message[0] == 'E');
                        assert(self@.response_message != "Secret Added !"@);
                        assert(self@.response_message.subrange(0, prefix.len() as int) =~= prefix);
                    }
                }
            },
            None => {},
        }
    }
}

} // verus!
