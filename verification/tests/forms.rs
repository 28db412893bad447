use std::rc::Rc;

use secret_store::database::Store;
use secret_store::forms::{CreateSecret, DecryptSecret, UpdateSecret};
use secret_store::types::Secret;

const KEY: &str = "magickey";
const PLAIN: &str = "http://magiclen.org";
const ENCRYPTED: &str = "DS/2U8royDnJDiNY2ps3f6ZoTbpZo8ZtUGYLGEjwLDQ=";
const DECRYPT_FAILURE: &str = "Can't decrypt secret. Provided Key might be invalid, error: ";

/// Submits a creation form and hands the secret to its store, as the
/// window does.
fn submit_create(form: &mut CreateSecret) {
    if let Some(secret) = form.submit() {
        let store = form.data_store.clone().unwrap();
        let outcome = store.insert_secret(&secret).map_err(|error| error.to_string());
        form.report_outcome(outcome);
    }
}

/// Submits an update form and hands the request to its store, as the
/// window does.
fn submit_update(form: &mut UpdateSecret) -> Result<(), sqlite::Error> {
    match form.submit_changes() {
        Some((id, username, password, description)) => {
            let store = form.data_store.clone().unwrap();
            let outcome = store.update_secret(id, username, password, description);
            form.finish_update(outcome)
        }
        None => Ok(()),
    }
}

fn memory_store() -> Rc<Store> {
    let store = Store::connect(String::from(":memory:")).unwrap();
    store.create_secrets_table().unwrap();
    Rc::new(store)
}

#[test]
fn decrypt_form_starts_empty_and_shown() {
    let form = DecryptSecret::new(4, String::from(ENCRYPTED), String::from(KEY));
    assert_eq!(form.id, 4);
    assert_eq!(form.encoded_pass, ENCRYPTED);
    assert_eq!(form.encryption_key, KEY);
    assert_eq!(form.decoded_pass, "");
    assert!(form.show_window);

    let default = DecryptSecret::default();
    assert_eq!(default.id, 0);
    assert_eq!(default.encoded_pass, "");
    assert_eq!(default.decoded_pass, "");
    assert!(default.show_window);
}

#[test]
fn decrypt_gives_back_the_password() {
    let mut form = DecryptSecret::new(1, String::from(ENCRYPTED), String::from(KEY));
    form.decrypt_secret();
    assert_eq!(form.decoded_pass, PLAIN);
    assert!(form.show_window);
}

#[test]
fn decrypt_under_a_wrong_key_reports_the_error() {
    let mut form = DecryptSecret::new(1, String::from(ENCRYPTED), String::from("otherkey"));
    form.decrypt_secret();
    assert!(form.decoded_pass.starts_with(DECRYPT_FAILURE));
    assert!(form.decoded_pass.len() > DECRYPT_FAILURE.len());
}

#[test]
fn decrypt_of_text_that_is_not_base64_reports_the_error() {
    let mut form = DecryptSecret::new(1, String::from("not base64!"), String::from(KEY));
    form.decrypt_secret();
    assert!(form.decoded_pass.starts_with(DECRYPT_FAILURE));
}

#[test]
fn decrypt_without_a_key_changes_nothing() {
    let mut form = DecryptSecret::new(1, String::from(ENCRYPTED), String::new());
    form.decoded_pass = String::from("left as it was");
    form.decrypt_secret();
    assert_eq!(form.decoded_pass, "left as it was");
}

#[test]
fn encrypt_uses_the_master_key() {
    let mut form = CreateSecret::new(
        String::from("me"),
        String::from(PLAIN),
        String::from("site"),
        String::from(KEY),
        memory_store(),
    );
    assert_eq!(form.encrypted_pass, "");
    form.encrypt_secret();
    assert_eq!(form.encrypted_pass, ENCRYPTED);
    assert_eq!(form.secret_password, PLAIN);
}

#[test]
fn encrypt_without_a_key_changes_nothing() {
    let mut form = CreateSecret::default();
    form.secret_password = String::from(PLAIN);
    form.encrypt_secret();
    assert_eq!(form.encrypted_pass, "");
}

#[test]
fn created_password_decrypts_under_the_same_key() {
    let mut create = CreateSecret::new(
        String::from("me"),
        String::from("s3cr3t pässword"),
        String::from("site"),
        String::from("master"),
        memory_store(),
    );
    create.encrypt_secret();
    let mut reveal = DecryptSecret::new(1, create.encrypted_pass.clone(), String::from("master"));
    reveal.decrypt_secret();
    assert_eq!(reveal.decoded_pass, "s3cr3t pässword");
}

#[test]
fn create_form_defaults() {
    let form = CreateSecret::default();
    assert_eq!(form.secret_username, "");
    assert_eq!(form.secret_password, "");
    assert_eq!(form.secret_desc, "");
    assert_eq!(form.encryption_key, "");
    assert_eq!(form.encrypted_pass, "");
    assert!(!form.show_window);
    assert_eq!(form.response_message(), "");
    assert!(!form.has_store());

    let form = CreateSecret::new(
        String::from("u"),
        String::from("p"),
        String::from("d"),
        String::from("k"),
        memory_store(),
    );
    assert!(form.show_window);
    assert!(form.has_store());
    assert_eq!(form.secret_username, "u");
    assert_eq!(form.encryption_key, "k");
}

#[test]
fn submit_adds_an_encrypted_secret() {
    let store = memory_store();
    let mut form = CreateSecret::new(
        String::from("me"),
        String::from(PLAIN),
        String::from("site"),
        String::from(KEY),
        store.clone(),
    );
    submit_create(&mut form);
    assert_eq!(form.response_message(), "Secret Added !");
    assert_eq!(form.encrypted_pass, ENCRYPTED);
    let secrets = store.fetch_secrets().unwrap();
    assert_eq!(secrets.len(), 1);
    assert_eq!(secrets[0].get_username(), "me");
    assert_eq!(secrets[0].get_password(), ENCRYPTED);
    assert_eq!(secrets[0].get_description(), "site");
    assert_eq!(secrets[0].get_id(), 1);
}

#[test]
fn submit_without_a_key_writes_nothing() {
    let store = memory_store();
    let mut form = CreateSecret::new(
        String::from("me"),
        String::from(PLAIN),
        String::from("site"),
        String::new(),
        store.clone(),
    );
    submit_create(&mut form);
    assert_eq!(
        form.response_message(),
        "Unable to create Secret, encryption key not available."
    );
    assert_eq!(form.encrypted_pass, "");
    assert_eq!(store.fetch_secrets().unwrap().len(), 0);
}

#[test]
fn submit_reports_a_refusal_of_the_store() {
    let store = Rc::new(Store::connect(String::from(":memory:")).unwrap());
    let mut form = CreateSecret::new(
        String::from("me"),
        String::from(PLAIN),
        String::from("site"),
        String::from(KEY),
        store,
    );
    submit_create(&mut form);
    assert!(form
        .response_message()
        .starts_with("Error adding secret. Error Message : "));
}

#[test]
fn update_form_defaults() {
    let form = UpdateSecret::default();
    assert_eq!(form.id, 0);
    assert_eq!(form.secret.get_id(), 0);
    assert!(!form.show_window);
    assert_eq!(form.user_to_update, "");
    assert_eq!(form.encoded_new_pass, "");
    assert_eq!(form.response_message(), "");
    assert!(!form.has_store());
}

fn stored_secret(store: &Store, password: &str) -> Secret {
    store
        .insert_secret(&Secret::new(
            0,
            String::from("old user"),
            String::from(password),
            String::from("old desc"),
        ))
        .unwrap();
    store.fetch_secrets().unwrap().remove(0)
}

#[test]
fn update_keeps_an_unchanged_password_as_stored() {
    let store = memory_store();
    let secret = stored_secret(&store, ENCRYPTED);
    let mut form = UpdateSecret::new(
        secret.get_id() as u64,
        String::from("new user"),
        String::from("new desc"),
        secret.get_password(),
        String::from(KEY),
        secret.clone(),
        store.clone(),
    );
    assert!(form.show_window);
    submit_update(&mut form).unwrap();
    assert!(!form.show_window);
    assert_eq!(form.encoded_new_pass, ENCRYPTED);
    let secrets = store.fetch_secrets().unwrap();
    assert_eq!(secrets[0].get_username(), "new user");
    assert_eq!(secrets[0].get_description(), "new desc");
    assert_eq!(secrets[0].get_password(), ENCRYPTED);
}

#[test]
fn update_encrypts_a_changed_password() {
    let store = memory_store();
    let secret = stored_secret(&store, "something else");
    let mut form = UpdateSecret::new(
        secret.get_id() as u64,
        String::from("u"),
        String::from("d"),
        String::from(PLAIN),
        String::from(KEY),
        secret.clone(),
        store.clone(),
    );
    submit_update(&mut form).unwrap();
    assert_eq!(form.encoded_new_pass, ENCRYPTED);
    assert_eq!(store.fetch_secrets().unwrap()[0].get_password(), ENCRYPTED);
}

#[test]
fn update_without_a_key_reports_and_writes_nothing() {
    let store = memory_store();
    let secret = stored_secret(&store, "pw");
    let mut form = UpdateSecret::new(
        secret.get_id() as u64,
        String::from("u"),
        String::from("d"),
        String::from("other"),
        String::new(),
        secret.clone(),
        store.clone(),
    );
    submit_update(&mut form).unwrap();
    assert_eq!(
        form.response_message(),
        "Unable to perform updates. Please provide a valid encryption key first!"
    );
    assert!(form.show_window);
    assert_eq!(form.encoded_new_pass, "");
    assert_eq!(store.fetch_secrets().unwrap()[0].get_username(), "old user");
}

#[test]
fn update_hands_back_the_error_of_the_store() {
    let store = Rc::new(Store::connect(String::from(":memory:")).unwrap());
    let mut form = UpdateSecret::new(
        1,
        String::from("u"),
        String::from("d"),
        String::from("p"),
        String::from(KEY),
        Secret::default(),
        store,
    );
    assert!(submit_update(&mut form).is_err());
    assert!(form.show_window);
}

#[test]
fn update_request_carries_the_password_to_store() {
    let store = memory_store();
    let secret = Secret::new(3, String::from("u"), String::from(ENCRYPTED), String::from("d"));
    let mut form = UpdateSecret::new(
        3,
        String::from("user"),
        String::from("desc"),
        String::from(ENCRYPTED),
        String::from(KEY),
        secret,
        store,
    );
    let (id, user, pass, desc) = form.update_request();
    assert_eq!((id, user.as_str(), pass.as_str(), desc.as_str()), (3, "user", ENCRYPTED, "desc"));
    form.pass_to_update = String::from(PLAIN);
    let (_, _, pass, _) = form.update_request();
    assert_eq!(pass, ENCRYPTED);
}

#[test]
fn secret_to_insert_holds_the_encrypted_password() {
    let mut form = CreateSecret::new(
        String::from("me"),
        String::from(PLAIN),
        String::from("site"),
        String::from(KEY),
        memory_store(),
    );
    form.encrypt_secret();
    let secret = form.secret_to_insert();
    assert_eq!(secret.get_id(), 0);
    assert_eq!(secret.get_username(), "me");
    assert_eq!(secret.get_password(), ENCRYPTED);
    assert_eq!(secret.get_description(), "site");
}

#[test]
fn report_outcome_follows_the_answer() {
    let mut form = CreateSecret::default();
    form.report_outcome(Ok(()));
    assert_eq!(form.response_message(), "Secret Added !");
    form.report_outcome(Err(String::from("disk full")));
    assert_eq!(form.response_message(), "Error adding secret. Error Message : disk full");
}

#[test]
fn submit_hands_back_the_encrypted_secret() {
    let mut form = CreateSecret::new(
        String::from("me"),
        String::from(PLAIN),
        String::from("site"),
        String::from(KEY),
        memory_store(),
    );
    let secret = form.submit().unwrap();
    assert_eq!(secret.get_id(), 0);
    assert_eq!(secret.get_username(), "me");
    assert_eq!(secret.get_password(), ENCRYPTED);
    assert_eq!(secret.get_description(), "site");
    assert_eq!(form.response_message(), "");

    let mut keyless = CreateSecret::default();
    assert!(keyless.submit().is_none());
}

#[test]
fn submit_changes_hands_back_the_request() {
    let secret = Secret::new(6, String::from("u"), String::from("stored"), String::from("d"));
    let mut form = UpdateSecret::new(
        6,
        String::from("u2"),
        String::from("d2"),
        String::from(PLAIN),
        String::from(KEY),
        secret,
        memory_store(),
    );
    let (id, user, pass, desc) = form.submit_changes().unwrap();
    assert_eq!((id, user.as_str(), pass.as_str(), desc.as_str()), (6, "u2", ENCRYPTED, "d2"));
    assert_eq!(form.encoded_new_pass, ENCRYPTED);
    assert!(form.show_window);
    assert!(form.finish_update(Ok(())).is_ok());
    assert!(!form.show_window);
}

#[test]
fn finish_update_keeps_the_form_open_on_an_error() {
    let mut form = UpdateSecret::default();
    form.show_window = true;
    let error = sqlite::Error { code: Some(1), message: Some(String::from("no")) };
    assert!(form.finish_update(Err(error)).is_err());
    assert!(form.show_window);
}

#[test]
fn submit_to_store_adds_the_encrypted_secret() {
    let store = memory_store();
    let mut form = CreateSecret::new(
        String::from("me"),
        String::from(PLAIN),
        String::from("site"),
        String::from(KEY),
        store.clone(),
    );
    form.submit_to_store();
    assert_eq!(form.response_message(), "Secret Added !");
    let secrets = store.fetch_secrets().unwrap();
    assert_eq!(secrets[0].get_password(), ENCRYPTED);

    let refusing = Rc::new(Store::connect(String::from(":memory:")).unwrap());
    let mut form = CreateSecret::new(
        String::from("me"),
        String::from(PLAIN),
        String::from("site"),
        String::from(KEY),
        refusing,
    );
    form.submit_to_store();
    assert!(form
        .response_message()
        .starts_with("Error adding secret. Error Message : "));
}

#[test]
fn update_submit_to_store_writes_and_closes() {
    let store = memory_store();
    let secret = stored_secret(&store, "old");
    let mut form = UpdateSecret::new(
        secret.get_id() as u64,
        String::from("u"),
        String::from("d"),
        String::from(PLAIN),
        String::from(KEY),
        secret.clone(),
        store.clone(),
    );
    form.submit_to_store().unwrap();
    assert!(!form.show_window);
    assert_eq!(store.fetch_secrets().unwrap()[0].get_password(), ENCRYPTED);

    let mut keyless = UpdateSecret::new(
        1,
        String::new(),
        String::new(),
        String::new(),
        String::new(),
        Secret::default(),
        store,
    );
    keyless.submit_to_store().unwrap();
    assert!(keyless.show_window);
}
