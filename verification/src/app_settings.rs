//! The credential store: a passphrase-derived symmetric cipher protects the
//! API key pair at rest. Both fields of the persisted record are encrypted
//! independently with the same passphrase-derived key and encoded as base64;
//! the record is opaque without the correct passphrase.
//!
//! The cipher itself (AES-256-CBC keyed by a SHA-256 digest of the
//! passphrase, zero IV, PKCS7 padding, base64 transport encoding) is supplied
//! by `magic_crypt` and left uninterpreted here: encryption and decryption
//! are deterministic functions of the passphrase and the text alone.

use vstd::prelude::*;
use magic_crypt::MagicCryptTrait;

verus! {

/// The persisted credential record (encrypted fields, base64), and equally
/// the in-memory shape of the decrypted session credentials.
#[derive(Clone, Debug)]
pub struct AppSettings {
    pub binance_key: String,
    pub binance_secret_key: String,
}

/// How loading a credential record can fail.
#[derive(Clone, Copy, Debug, PartialEq, Eq, Structural)]
pub enum CredentialError {
    /// The key field did not decrypt under the supplied passphrase: the
    /// passphrase is wrong. Fatal; the caller must not proceed with partial
    /// or garbage credentials.
    Authentication,
    /// The key field decrypted but the secret field did not: the record is
    /// inconsistent. Fatal for this call.
    Configuration,
}

/// The base64 ciphertext that the passphrase-derived cipher produces for
/// `plain` under `pass`.
pub uninterp spec fn enc_of(pass: Seq<char>, plain: Seq<char>) -> Seq<char>;

/// What the passphrase-derived cipher recovers from the base64 text `cipher`
/// under `pass`: `None` when base64 decoding, unpadding or UTF-8 decoding of
/// the result fails.
pub uninterp spec fn dec_of(pass: Seq<char>, cipher: Seq<char>) -> Option<Seq<char>>;

/// Relies on `magic_crypt::MagicCrypt256::new` (key derived from the
/// passphrase alone, default zero IV) and `encrypt_str_to_base64`: encryption
/// is deterministic, and decrypting its output with the same passphrase
/// recovers the plaintext exactly.
#[verifier::external_body]
fn encrypt_str(pass: &str, plain: &str) -> (r: String)
    ensures
        r@ == enc_of(pass@, plain@),
        dec_of(pass@, r@) == Some(plain@),
{
    let mc = magic_crypt::MagicCrypt256::new(pass, None::<&str>);
    mc.encrypt_str_to_base64(plain)
}

/// Relies on `magic_crypt::MagicCrypt256::new` and
/// `decrypt_base64_to_string`: decryption is a deterministic function of the
/// passphrase and the ciphertext, and reports failure (bad base64, bad
/// padding, non-UTF-8 plaintext) through its `Result`.
#[verifier::external_body]
fn decrypt_str(pass: &str, cipher: &str) -> (r: Option<String>)
    ensures
        match r {
            Some(s) => dec_of(pass@, cipher@) == Some(s@),
            None => dec_of(pass@, cipher@) is None,
        },
{
    let mc = magic_crypt::MagicCrypt256::new(pass, None::<&str>);
    mc.decrypt_base64_to_string(cipher).ok()
}

/// Encrypts a freshly entered key pair into a persistable record. Both
/// fields decrypt back to the entered credentials under the same passphrase.
pub fn encrypt_settings(pass: &str, key: &str, secret: &str) -> (r: AppSettings)
    ensures
        r.binance_key@ == enc_of(pass@, key@),
        r.binance_secret_key@ == enc_of(pass@, secret@),
        dec_of(pass@, r.binance_key@) == Some(key@),
        dec_of(pass@, r.binance_secret_key@) == Some(secret@),
{
    AppSettings {
        binance_key: encrypt_str(pass, key),
        binance_secret_key: encrypt_str(pass, secret),
    }
}

/// Decrypts a persisted record. Succeeds exactly when both fields decrypt
/// under `pass`; a failing key field is reported as a wrong passphrase, a
/// failing secret field (after a key field that decrypted) as a corrupt
/// record. Never returns partial or garbage credentials.
pub fn decrypt_settings(pass: &str, record: &AppSettings) -> (r: Result<
    AppSettings,
    CredentialError,
>)
    ensures
        match r {
            Ok(creds) => {
                &&& dec_of(pass@, record.binance_key@) == Some(creds.binance_key@)
                &&& dec_of(pass@, record.binance_secret_key@) == Some(creds.binance_secret_key@)
            },
            Err(CredentialError::Authentication) => dec_of(pass@, record.binance_key@) is None,
            Err(CredentialError::Configuration) => {
                &&& dec_of(pass@, record.binance_key@) is Some
                &&& dec_of(pass@, record.binance_secret_key@) is None
            },
        },
{
    let key = match decrypt_str(pass, record.binance_key.as_str()) {
        Some(k) => k,
        None => {
            return Err(CredentialError::Authentication);
        },
    };
    let secret = match decrypt_str(pass, record.binance_secret_key.as_str()) {
        Some(s) => s,
        None => {
            return Err(CredentialError::Configuration);
        },
    };
    Ok(AppSettings { binance_key: key, binance_secret_key: secret })
}

/// The round trip law, checked rather than assumed: for any passphrase and
/// any plaintext pair, encrypting and then decrypting under the same
/// passphrase recovers exactly the plaintext pair — never an error, never
/// different text.
pub fn encrypt_then_decrypt(pass: &str, key: &str, secret: &str) -> (r: Result<
    AppSettings,
    CredentialError,
>)
    ensures
        r matches Ok(creds),
        r matches Ok(creds) ==> creds.binance_key@ == key@ && creds.binance_secret_key@
            == secret@,
{
    let record = encrypt_settings(pass, key, secret);
    decrypt_settings(pass, &record)
}

/// The credential lifecycle for one process start, with the file I/O pared
/// away: `existing` is the record read from the store path (if one was
/// there) and `entered_key` / `entered_secret` are the freshly prompted
/// credentials (consulted only on a first run).
///
/// On a first run (`existing` is `None`) the entered pair is returned as the
/// session credentials together with the newly encrypted record to persist;
/// decrypting that record with the same passphrase recovers the entered pair
/// exactly. On every later run no record is ever produced for writing — the
/// stored ciphertext is never overwritten — and the existing record is
/// decrypted or the load fails.
pub fn load_or_create_settings(
    pass: &str,
    existing: Option<&AppSettings>,
    entered_key: &str,
    entered_secret: &str,
) -> (r: Result<(AppSettings, Option<AppSettings>), CredentialError>)
    ensures
        match existing {
            None => match r {
                Ok((creds, record)) => {
                    &&& creds.binance_key@ == entered_key@
                    &&& creds.binance_secret_key@ == entered_secret@
                    &&& record matches Some(rec)
                    &&& rec.binance_key@ == enc_of(pass@, entered_key@)
                    &&& rec.binance_secret_key@ == enc_of(pass@, entered_secret@)
                    &&& dec_of(pass@, rec.binance_key@) == Some(entered_key@)
                    &&& dec_of(pass@, rec.binance_secret_key@) == Some(entered_secret@)
                },
                Err(_) => false,
            },
            Some(rec) => match r {
                Ok((creds, record)) => {
                    &&& record is None
                    &&& dec_of(pass@, rec.binance_key@) == Some(creds.binance_key@)
                    &&& dec_of(pass@, rec.binance_secret_key@) == Some(creds.binance_secret_key@)
                },
                Err(CredentialError::Authentication) => dec_of(pass@, rec.binance_key@) is None,
                Err(CredentialError::Configuration) => {
                    &&& dec_of(pass@, rec.binance_key@) is Some
                    &&& dec_of(pass@, rec.binance_secret_key@) is None
                },
            },
        },
{
    match existing {
        None => {
            let record = encrypt_settings(pass, entered_key, entered_secret);
            let creds = AppSettings {
                binance_key: entered_key.to_owned(),
                binance_secret_key: entered_secret.to_owned(),
            };
            Ok((creds, Some(record)))
        },
        Some(record) => {
            let creds = decrypt_settings(pass, record)?;
            Ok((creds, None))
        },
    }
}

} // verus!
