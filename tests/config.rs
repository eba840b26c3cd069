use scm::authority::{CertPath, KeyPath};
use scm::config::{Config, Profile};
use scm::error::Error;
use std::path::PathBuf;

fn profile(dir: &str) -> Profile {
    Profile::new(
        CertPath(PathBuf::from(format!("{dir}/crt.pem"))),
        KeyPath(PathBuf::from(format!("{dir}/key.pem"))),
    )
}

#[test]
fn registered_profile_is_found() {
    let mut config = Config::new();
    config.register("dev".to_string(), profile("/cfg/dev"));
    let p = config.profile(&"dev".to_string()).expect("registered");
    assert_eq!(p.cert, PathBuf::from("/cfg/dev/crt.pem"));
    assert_eq!(p.key, PathBuf::from("/cfg/dev/key.pem"));
}

#[test]
fn missing_profile_names_itself() {
    let config = Config::default();
    let e = config.profile(&"nope".to_string()).err().expect("missing");
    assert_eq!(e.0, "nope");
}

#[test]
fn registering_again_replaces() {
    let mut config = Config::new();
    config.register("dev".to_string(), profile("/a"));
    config.register("dev".to_string(), profile("/b"));
    assert!(config.profile(&"other".to_string()).is_err());
    assert_eq!(config.profile(&"dev".to_string()).unwrap().cert, PathBuf::from("/b/crt.pem"));
}

#[test]
fn error_messages() {
    assert_eq!(Error::ConfigurationError.message(), "Unexpected error related to the configuration");
    assert_eq!(Error::CertificateError.message(), "Unexpected error related to the certificate");
    assert_eq!(Error::KeychainError.message(), "Unexpected error related to the keychain");
}
