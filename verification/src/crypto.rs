use vstd::prelude::*;
use magic_crypt::MagicCryptTrait;

verus! {

/// The Base64 text that magic_crypt's 256-bit cipher makes of `plain` under
/// the master key `key` (AES-256 in CBC mode with PKCS#7 padding, the key
/// hashed with SHA-256 and a zero IV, so a function of its two arguments).
pub uninterp spec fn encrypted_base64(key: Seq<char>, plain: Seq<char>) -> Seq<char>;

/// What magic_crypt's 256-bit cipher gives back for the Base64 text
/// `encoded` under the master key `key`: the decrypted text, or the text of
/// the error that it reports.
pub uninterp spec fn decrypted_base64(key: Seq<char>, encoded: Seq<char>) -> Result<
    Seq<char>,
    Seq<char>,
>;

/// Calls `MagicCrypt256::new(key, None)` (what `new_magic_crypt!(key, 256)`
/// expands to) and `encrypt_str_to_base64(plain)`. Trusted: the result is the
/// value of `encrypted_base64` on the two texts.
#[verifier::external_body]
pub(crate) fn encrypt_to_base64(key: &str, plain: &str) -> (r: String)
    ensures
        r@ == encrypted_base64(key@, plain@),
{
    magic_crypt::MagicCrypt256::new(key, None::<String>).encrypt_str_to_base64(plain)
}

/// Calls `MagicCrypt256::new(key, None)` and `decrypt_base64_to_string(encoded)`,
/// and turns a `MagicCryptError` into its displayed text. Trusted: the result
/// is the value of `decrypted_base64` on the two texts, and decryption under a
/// key gives back any text that `encrypt_str_to_base64` encrypted under the
/// same key (the Base64 encoding, the CBC/PKCS#7 cipher and the UTF-8 encoding
/// are each undone by their inverse).
#[verifier::external_body]
pub(crate) fn decrypt_from_base64(key: &str, encoded: &str) -> (r: Result<String, String>)
    ensures
        match r {
            Ok(text) => {
                &&& decrypted_base64(key@, encoded@) == Ok::<Seq<char>, Seq<char>>(text@)
                &&& forall|plain: Seq<char>|
                    #[trigger] encrypted_base64(key@, plain) == encoded@ ==> text@ == plain
            },
            Err(text) => {
                &&& decrypted_base64(key@, encoded@) == Err::<Seq<char>, Seq<char>>(text@)
                &&& forall|plain: Seq<char>| #[trigger] encrypted_base64(key@, plain) != encoded@
            },
        },
{
    match magic_crypt::MagicCrypt256::new(key, None::<String>).decrypt_base64_to_string(encoded) {
        Ok(plain) => Ok(plain),
        Err(error) => Err(format!("{}", error)),
    }
}

} // verus!
