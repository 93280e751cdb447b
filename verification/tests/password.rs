use manta_signer::secret::{Password, SecretBytes};

#[test]
fn from_known_is_known() {
    let password = Password::from_known(SecretBytes::new(vec![1, 2, 3]));
    assert!(password.is_known());
}

#[test]
fn from_known_empty_is_known() {
    let password = Password::from_known(SecretBytes::new(Vec::new()));
    assert!(password.is_known());
}

#[test]
fn from_known_long_is_known() {
    let password = Password::from_known(SecretBytes::new(vec![7u8; 4096]));
    assert!(password.is_known());
}

#[test]
fn from_unknown_is_not_known() {
    let password = Password::from_unknown();
    assert!(!password.is_known());
}

#[test]
fn default_is_unknown() {
    let password = Password::default();
    assert!(!password.is_known());
}

#[test]
fn known_round_trip_returns_bytes() {
    let bytes = vec![9u8, 8, 7, 6, 5];
    let password = Password::from_known(SecretBytes::new(bytes.clone()));
    let secret = password.known().expect("a known password must yield its secret");
    assert_eq!(secret.expose_secret(), &bytes);
}

#[test]
fn known_of_unknown_is_absent() {
    let password = Password::from_unknown();
    assert!(password.known().is_none());
}

#[test]
fn new_with_presence_flag() {
    let known = Password::new(SecretBytes::new(vec![4, 4]), true);
    assert!(known.is_known());
    let unknown = Password::new(SecretBytes::new(vec![4, 4]), false);
    assert!(!unknown.is_known());
}

#[test]
fn secret_bytes_round_trip() {
    let secret = SecretBytes::new(vec![42u8; 16]);
    assert_eq!(secret.expose_secret(), &vec![42u8; 16]);
}
