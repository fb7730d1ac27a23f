use vstd::prelude::*;

verus! {

/// The credential hash for `content` salted with `salt` under `key`: the
/// base64url HMAC-SHA512 that password_encryptor computes, a function of the
/// three arguments alone, left uninterpreted.
pub uninterp spec fn encrypted_of(key: Seq<u8>, content: Seq<char>, salt: Seq<char>) -> Seq<char>;

/// Relies on password_encryptor::PasswordEncryptor::{new, encrypt_password}:
/// with no prefix configured, the result is the base64url HMAC-SHA512 of the
/// content followed by the salt under the key; HMAC accepts keys of any
/// length, so the call cannot fail.
#[verifier::external_body]
pub fn encrypt_password(key: &Vec<u8>, password: &str, salt: &str) -> (r: String)
    ensures
        r@ == encrypted_of(key@, password@, salt@),
{
    let password_encryptor = password_encryptor::PasswordEncryptor::new(key.clone(), None);
    let data = password_encryptor::EncryptionData { content: password, salt };
    match password_encryptor.encrypt_password(&data) {
        Ok(result) => result,
        Err(e) => format!("Unable to encrypt password. {:?}", e),
    }
}

/// Relies on password_encryptor::PasswordEncryptor::{new, validate_password}:
/// validation succeeds exactly when the stored hash equals the hash of the
/// supplied content and salt under the key.
#[verifier::external_body]
pub fn validate_password(key: &Vec<u8>, password: &str, encrypted_password: &str, salt: &str) -> (r:
    bool)
    ensures
        r == (encrypted_password@ == encrypted_of(key@, password@, salt@)),
{
    let password_encryptor = password_encryptor::PasswordEncryptor::new(key.clone(), None);
    let data = password_encryptor::EncryptionData { content: password, salt };
    password_encryptor.validate_password(&data, encrypted_password).is_ok()
}

} // verus!
