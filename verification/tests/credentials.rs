use binance_client::app_settings::{
    decrypt_settings, encrypt_settings, load_or_create_settings, AppSettings, CredentialError,
};
use magic_crypt::MagicCryptTrait;

#[test]
fn encrypt_then_decrypt_round_trip() {
    let record = encrypt_settings("hunter2", "my api key", "my api secret");
    let creds = decrypt_settings("hunter2", &record).expect("same passphrase must decrypt");
    assert_eq!(creds.binance_key, "my api key");
    assert_eq!(creds.binance_secret_key, "my api secret");
}

#[test]
fn encrypt_matches_cipher_directly() {
    // The encryption wrapper must produce exactly what the passphrase-derived
    // cipher produces, not the plaintext or anything else.
    let record = encrypt_settings("hunter2", "my api key", "my api secret");
    let mc = magic_crypt::MagicCrypt256::new("hunter2", None::<&str>);
    assert_eq!(record.binance_key, mc.encrypt_str_to_base64("my api key"));
    assert_eq!(record.binance_secret_key, mc.encrypt_str_to_base64("my api secret"));
    assert_ne!(record.binance_key, "my api key");
}

#[test]
fn round_trip_helper_returns_plaintext() {
    let creds = binance_client::app_settings::encrypt_then_decrypt("p", "k", "s").unwrap();
    assert_eq!(creds.binance_key, "k");
    assert_eq!(creds.binance_secret_key, "s");
}

#[test]
fn wrong_passphrase_is_authentication_error() {
    let record = encrypt_settings("abc123", "PUBKEY", "SECKEY");
    match decrypt_settings("wrong", &record) {
        Err(CredentialError::Authentication) => {},
        other => panic!("expected an authentication failure, got {:?}", other),
    }
}

#[test]
fn corrupt_secret_field_is_configuration_error() {
    let good = encrypt_settings("abc123", "PUBKEY", "SECKEY");
    let record = AppSettings {
        binance_key: good.binance_key,
        binance_secret_key: "!!! not base64 !!!".to_string(),
    };
    match decrypt_settings("abc123", &record) {
        Err(CredentialError::Configuration) => {},
        other => panic!("expected a configuration failure, got {:?}", other),
    }
}

#[test]
fn first_run_creates_record() {
    let r = load_or_create_settings("abc123", None, "PUBKEY", "SECKEY").unwrap();
    let (creds, written) = r;
    assert_eq!(creds.binance_key, "PUBKEY");
    assert_eq!(creds.binance_secret_key, "SECKEY");
    let record = written.expect("first run must produce a record to persist");
    let reloaded = decrypt_settings("abc123", &record).unwrap();
    assert_eq!(reloaded.binance_key, "PUBKEY");
    assert_eq!(reloaded.binance_secret_key, "SECKEY");
}

#[test]
fn second_run_never_writes() {
    let (_, written) = load_or_create_settings("abc123", None, "PUBKEY", "SECKEY").unwrap();
    let record = written.unwrap();
    let first_ciphertext = record.binance_key.clone();
    // A later run sees the record: it must not produce anything to write,
    // so the stored ciphertext can never be overwritten.
    let (creds, rewritten) =
        load_or_create_settings("abc123", Some(&record), "other", "entries").unwrap();
    assert!(rewritten.is_none());
    assert_eq!(creds.binance_key, "PUBKEY");
    assert_eq!(record.binance_key, first_ciphertext);
}

#[test]
fn full_lifecycle_scenario() {
    // Fresh environment, passphrase "abc123", key "PUBKEY", secret "SECKEY".
    let (creds, written) = load_or_create_settings("abc123", None, "PUBKEY", "SECKEY").unwrap();
    assert_eq!((creds.binance_key.as_str(), creds.binance_secret_key.as_str()), ("PUBKEY", "SECKEY"));
    let record = written.unwrap();

    // Restart with the same passphrase: decrypted credentials are equal.
    let (creds, written) = load_or_create_settings("abc123", Some(&record), "", "").unwrap();
    assert_eq!((creds.binance_key.as_str(), creds.binance_secret_key.as_str()), ("PUBKEY", "SECKEY"));
    assert!(written.is_none());

    // Restart with passphrase "wrong": a fatal authentication error.
    match load_or_create_settings("wrong", Some(&record), "", "") {
        Err(CredentialError::Authentication) => {},
        other => panic!("expected an authentication failure, got {:?}", other),
    }
}
