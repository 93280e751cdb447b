use manta_signer::config::{Config, DataStatus, Setup};
use manta_signer::CoreError;

fn sample_config() -> Config {
    Config {
        data_path: vec!["home".to_string(), "signer".to_string(), "storage.dat".to_string()],
        service_url: "127.0.0.1:29987".to_string(),
        origin_url: None,
    }
}

#[test]
fn regular_file_means_login() {
    let config = sample_config();
    let result = config.setup(DataStatus::RegularFile, "unused words".to_string());
    assert!(matches!(result, Ok(Setup::Login)));
}

#[test]
fn occupied_slot_is_invalid_format() {
    let config = sample_config();
    let result = config.setup(DataStatus::NotRegularFile, "unused words".to_string());
    assert!(matches!(result, Err(CoreError::InvalidDataFormat)));
}

#[test]
fn absent_file_creates_account_with_mnemonic() {
    let config = sample_config();
    let phrase = "spawn ketchup sadness".to_string();
    let result = config.setup(DataStatus::Absent, phrase.clone());
    match result {
        Ok(Setup::CreateAccount(mnemonic)) => assert_eq!(mnemonic, phrase),
        _ => panic!("an absent data file must lead to account creation"),
    }
}

#[test]
fn failed_inspection_is_io_failure() {
    let config = sample_config();
    let result = config.setup(DataStatus::Inaccessible, "unused words".to_string());
    assert!(matches!(result, Err(CoreError::IoFailure)));
}

#[test]
fn file_appends_identifier_and_name() {
    let base = vec!["root".to_string(), "config".to_string()];
    let result = manta_signer::config::file(Some(base), "storage.dat".to_string());
    assert_eq!(
        result,
        Some(vec![
            "root".to_string(),
            "config".to_string(),
            "manta-signer".to_string(),
            "storage.dat".to_string(),
        ])
    );
}

#[test]
fn file_of_nothing_is_nothing() {
    assert_eq!(manta_signer::config::file(None, "storage.dat".to_string()), None);
}

#[test]
fn data_directory_drops_file_name() {
    let config = sample_config();
    assert_eq!(config.data_directory(), vec!["home".to_string(), "signer".to_string()]);
}

#[test]
fn try_default_places_data_under_signer_directory() {
    if let Some(config) = Config::try_default() {
        let components = &config.data_path;
        assert!(components.len() >= 2);
        assert_eq!(components[components.len() - 1], "storage.dat");
        assert_eq!(components[components.len() - 2], "manta-signer");
        assert_eq!(config.service_url, "127.0.0.1:29987");
        assert_eq!(config.origin_url.as_deref(), Some("https://app.dolphin.manta.network"));
    }
}
