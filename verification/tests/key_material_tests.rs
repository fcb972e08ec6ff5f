use que_engine::key_material::{check_private_key_permissions, CredentialRole, KeyLoader, KeyMaterial,
    LoadEvent, LoadRequest};
use que_engine::{EngineError, Signer};

fn local() -> Signer {
    Signer::Local { cert_path: "/keys/cert.pem".to_string(), key_path: "/keys/key.pem".to_string() }
}

fn env() -> Signer {
    Signer::Env { cert_var: "CERT_PEM".to_string(), key_var: "KEY_PEM".to_string() }
}

fn bytes_of(mut material: KeyMaterial) -> (Vec<u8>, Vec<u8>) {
    let copied: Result<(Vec<u8>, Vec<u8>), EngineError> =
        material.build_signer(|cert: &Vec<u8>, key: &Vec<u8>| Ok((cert.clone(), key.clone())));
    assert!(material.is_wiped());
    copied.unwrap()
}

fn config_error(r: Result<KeyMaterial, EngineError>) -> String {
    match r {
        Err(EngineError::Config(m)) => m,
        Err(other) => panic!("expected a configuration error, got {:?}", other),
        Ok(_) => panic!("expected a configuration error, got material"),
    }
}

#[test]
fn key_file_with_group_read_is_rejected_before_any_read() {
    let mut loader = KeyLoader::begin(local(), CredentialRole::Main, true);
    match loader.pending() {
        LoadRequest::StatKeyFile(path) => assert_eq!(path, "/keys/key.pem"),
        other => panic!("the mode must be asked for first, got {:?}", other),
    }
    assert!(matches!(loader.advance(LoadEvent::Mode(0o640)), LoadRequest::Finished));
    assert_eq!(
        config_error(loader.finish()),
        "Insecure key file permissions for /keys/key.pem (expected 0600 or stricter)"
    );
}

#[test]
fn key_file_with_owner_only_mode_proceeds_to_the_reads() {
    let mut loader = KeyLoader::begin(local(), CredentialRole::Main, true);
    match loader.advance(LoadEvent::Mode(0o600)) {
        LoadRequest::ReadFile(path) => assert_eq!(path, "/keys/cert.pem"),
        other => panic!("expected the certificate to be read, got {:?}", other),
    }
    match loader.advance(LoadEvent::Content(b"CERT".to_vec())) {
        LoadRequest::ReadFile(path) => assert_eq!(path, "/keys/key.pem"),
        other => panic!("expected the key to be read, got {:?}", other),
    }
    assert!(matches!(loader.advance(LoadEvent::Content(b"KEY".to_vec())), LoadRequest::Finished));
    let material = loader.finish().unwrap();
    assert!(!material.is_wiped());
    assert_eq!(bytes_of(material), (b"CERT".to_vec(), b"KEY".to_vec()));
}

#[test]
fn permission_check_reads_group_and_other_bits_only() {
    assert!(check_private_key_permissions("k", 0o600).is_ok());
    assert!(check_private_key_permissions("k", 0o400).is_ok());
    assert!(check_private_key_permissions("k", 0o700).is_ok());
    assert!(check_private_key_permissions("k", 0o100600).is_ok());
    assert!(check_private_key_permissions("k", 0).is_ok());
    for mode in [0o640, 0o604, 0o644, 0o660, 0o601, 0o610, 0o777, 0o100640] {
        match check_private_key_permissions("k.pem", mode) {
            Err(EngineError::Config(m)) => {
                assert_eq!(m, "Insecure key file permissions for k.pem (expected 0600 or stricter)")
            }
            other => panic!("mode {:o} must be refused, got {:?}", mode, other),
        }
    }
}

#[test]
fn platform_without_permission_bits_starts_with_the_certificate() {
    let loader = KeyLoader::begin(local(), CredentialRole::Main, false);
    match loader.pending() {
        LoadRequest::ReadFile(path) => assert_eq!(path, "/keys/cert.pem"),
        other => panic!("expected the certificate to be read, got {:?}", other),
    }
}

#[test]
fn environment_source_reads_both_variables() {
    let mut loader = KeyLoader::begin(env(), CredentialRole::Main, true);
    match loader.pending() {
        LoadRequest::ReadEnv(name) => assert_eq!(name, "CERT_PEM"),
        other => panic!("expected the certificate variable, got {:?}", other),
    }
    match loader.advance(LoadEvent::Content(b"C".to_vec())) {
        LoadRequest::ReadEnv(name) => assert_eq!(name, "KEY_PEM"),
        other => panic!("expected the key variable, got {:?}", other),
    }
    loader.advance(LoadEvent::Content(b"K".to_vec()));
    let material = loader.finish().unwrap();
    assert_eq!(bytes_of(material), (b"C".to_vec(), b"K".to_vec()));
}

#[test]
fn missing_variable_is_named_and_worded_by_role() {
    let mut main = KeyLoader::begin(env(), CredentialRole::Main, true);
    main.advance(LoadEvent::Unavailable("ignored".to_string()));
    assert_eq!(config_error(main.finish()), "Cert env var not found: CERT_PEM");

    let mut shared = KeyLoader::begin(env(), CredentialRole::SharedWithMain, true);
    shared.advance(LoadEvent::Content(b"C".to_vec()));
    shared.advance(LoadEvent::Unavailable(String::new()));
    assert_eq!(config_error(shared.finish()), "Main key env var not found: KEY_PEM");

    let mut identity = KeyLoader::begin(env(), CredentialRole::Identity, true);
    identity.advance(LoadEvent::Unavailable(String::new()));
    assert_eq!(config_error(identity.finish()), "CAWG cert env var not found: CERT_PEM");
}

#[test]
fn unreadable_file_is_reported_with_the_system_message() {
    let mut main = KeyLoader::begin(local(), CredentialRole::Main, true);
    main.advance(LoadEvent::Mode(0o600));
    main.advance(LoadEvent::Unavailable("No such file or directory".to_string()));
    assert_eq!(config_error(main.finish()), "Failed to read cert: No such file or directory");

    let mut shared = KeyLoader::begin(local(), CredentialRole::SharedWithMain, true);
    shared.advance(LoadEvent::Mode(0o600));
    shared.advance(LoadEvent::Content(b"C".to_vec()));
    shared.advance(LoadEvent::Unavailable("denied".to_string()));
    assert_eq!(config_error(shared.finish()), "Failed to read main key: denied");

    let mut identity = KeyLoader::begin(local(), CredentialRole::Identity, false);
    identity.advance(LoadEvent::Content(b"C".to_vec()));
    identity.advance(LoadEvent::Unavailable("denied".to_string()));
    assert_eq!(config_error(identity.finish()), "Failed to read CAWG key: denied");

    let mut stat = KeyLoader::begin(local(), CredentialRole::Main, true);
    stat.advance(LoadEvent::Unavailable("No such file or directory".to_string()));
    assert_eq!(config_error(stat.finish()), "Failed to stat key file: No such file or directory");
}

#[test]
fn load_given_up_half_way_is_refused() {
    let mut loader = KeyLoader::begin(env(), CredentialRole::Main, true);
    loader.advance(LoadEvent::Content(b"C".to_vec()));
    assert_eq!(config_error(loader.finish()), "credential loading is not finished");
}

#[test]
fn event_that_answers_nothing_is_ignored() {
    let mut loader = KeyLoader::begin(local(), CredentialRole::Main, true);
    assert!(matches!(loader.advance(LoadEvent::Content(b"early".to_vec())), LoadRequest::StatKeyFile(_)));
    loader.advance(LoadEvent::Mode(0o600));
    assert!(matches!(loader.advance(LoadEvent::Mode(0o777)), LoadRequest::ReadFile(_)));
    loader.advance(LoadEvent::Content(b"C".to_vec()));
    loader.advance(LoadEvent::Content(b"K".to_vec()));
    assert!(matches!(loader.advance(LoadEvent::Content(b"late".to_vec())), LoadRequest::Finished));
    let material = loader.finish().unwrap();
    assert_eq!(bytes_of(material), (b"C".to_vec(), b"K".to_vec()));
}

#[test]
fn wipe_leaves_both_buffers_empty() {
    let mut material = KeyMaterial::new(b"-----BEGIN CERTIFICATE-----".to_vec(), vec![7u8; 4096]);
    assert!(!material.is_wiped());
    material.wipe();
    assert!(material.is_wiped());
    let seen: Result<usize, EngineError> =
        material.build_signer(|cert: &Vec<u8>, key: &Vec<u8>| Ok(cert.len() + key.len()));
    assert_eq!(seen.unwrap(), 0);
}

#[test]
fn material_is_handed_over_once_and_wiped_on_success_and_failure() {
    let mut material = KeyMaterial::new(b"CERT".to_vec(), b"KEY".to_vec());
    let built: Result<usize, EngineError> =
        material.build_signer(|cert: &Vec<u8>, key: &Vec<u8>| Ok(cert.len() * 10 + key.len()));
    assert_eq!(built.unwrap(), 43);
    assert!(material.is_wiped());

    let mut bad = KeyMaterial::new(b"CERT".to_vec(), b"not a key".to_vec());
    let failed: Result<(), EngineError> = bad.build_signer(|_cert: &Vec<u8>, key: &Vec<u8>| {
        assert_eq!(key, &b"not a key".to_vec());
        Err(EngineError::C2pa("malformed key".to_string()))
    });
    match failed {
        Err(EngineError::C2pa(m)) => assert_eq!(m, "malformed key"),
        other => panic!("expected the builder's error, got {:?}", other),
    }
    assert!(bad.is_wiped());
}
