use que_engine::{Signer, SignerError, Timestamper, TimestamperError};

#[test]
fn parse_env_signer() {
    let signer: Signer = "env:QE_TEST_CERT_PEM,QE_TEST_KEY_PEM".parse().unwrap();
    match signer {
        Signer::Env { cert_var, key_var } => {
            assert_eq!(cert_var, "QE_TEST_CERT_PEM");
            assert_eq!(key_var, "QE_TEST_KEY_PEM");
        }
        other => panic!("expected an env signer, got {:?}", other),
    }
}

#[test]
fn parse_local_signer() {
    let uri = format!("local:{},{}", "/tmp/dir/cert.pem", "/tmp/dir/key.pem");
    let signer: Signer = uri.parse().unwrap();
    match signer {
        Signer::Local { cert_path, key_path } => {
            assert_eq!(cert_path, "/tmp/dir/cert.pem");
            assert_eq!(key_path, "/tmp/dir/key.pem");
        }
        other => panic!("expected a local signer, got {:?}", other),
    }
}

#[test]
fn invalid_signer_scheme() {
    let err = "foo:bar".parse::<Signer>().unwrap_err();
    let msg = err.to_string();
    assert!(msg.contains("Invalid"));
}

#[test]
fn invalid_signer_uri_returns_error() {
    let result = "invalid://format".parse::<Signer>();
    assert!(result.is_err());
    assert!(result.unwrap_err().to_string().contains("Invalid"));
}

#[test]
fn invalid_timestamper_uri_returns_error() {
    let result = "not-a-valid-tsa".parse::<Timestamper>();
    assert!(result.is_err());
    assert!(result.unwrap_err().to_string().contains("Invalid"));
}

#[test]
fn signer_needs_exactly_two_parts() {
    for text in ["", "local", "local:", "local:a", "env:A", "local:a,b,c", "env:,,", "kms:a,b", "LOCAL:a,b", ":a,b"] {
        assert!(matches!(Signer::parse(text), Err(SignerError::InvalidScheme)), "{}", text);
    }
    match Signer::parse("local:,").unwrap() {
        Signer::Local { cert_path, key_path } => assert_eq!((cert_path.as_str(), key_path.as_str()), ("", "")),
        other => panic!("expected a local signer, got {:?}", other),
    }
    match Signer::parse("env:A:B,C:D").unwrap() {
        Signer::Env { cert_var, key_var } => assert_eq!((cert_var.as_str(), key_var.as_str()), ("A:B", "C:D")),
        other => panic!("expected an env signer, got {:?}", other),
    }
    match Signer::parse("local:/päth/ü.pem,/k€y").unwrap() {
        Signer::Local { cert_path, key_path } => {
            assert_eq!((cert_path.as_str(), key_path.as_str()), ("/päth/ü.pem", "/k€y"))
        }
        other => panic!("expected a local signer, got {:?}", other),
    }
}

#[test]
fn signer_errors_have_their_texts() {
    assert_eq!(SignerError::InvalidScheme.to_string(), "Invalid signer URI scheme: expected 'local:' or 'env:'");
    assert_eq!(SignerError::MissingLocalPath.to_string(), "Missing path for 'local:' signer");
    assert_eq!(SignerError::MissingEnvVar.to_string(), "Missing variable name for 'env:' signer");
    assert_eq!(
        SignerError::EnvVarNotFound("KEY_PEM".to_string()).to_string(),
        "Environment variable not found: KEY_PEM"
    );
}

#[test]
fn parse_timestamper() {
    let t: Timestamper = "digicert".parse().unwrap();
    let url = t.resolve().unwrap();
    assert!(url.starts_with("https://"));
    let t2: Timestamper = "custom:https://tsa.example".parse().unwrap();
    assert_eq!(t2.resolve().unwrap(), "https://tsa.example");
}

#[test]
fn parse_timestamper_invalid() {
    let err = "bogus".parse::<Timestamper>().unwrap_err();
    assert!(err.to_string().contains("Invalid timestamper"));
}

#[test]
fn timestamper_texts() {
    assert!(matches!(Timestamper::parse("digicert"), Ok(Timestamper::Digicert)));
    assert_eq!(Timestamper::Digicert.resolve().unwrap(), "https://timestamp.digicert.com");
    match Timestamper::parse("custom:") {
        Ok(Timestamper::Custom(url)) => assert_eq!(url, ""),
        other => panic!("expected a custom authority, got {:?}", other),
    }
    match Timestamper::parse("custom:http://tsa.example/ü") {
        Ok(Timestamper::Custom(url)) => assert_eq!(url, "http://tsa.example/ü"),
        other => panic!("expected a custom authority, got {:?}", other),
    }
    for text in ["", "Digicert", "digicert ", "custom", "Custom:x", "custo:x"] {
        assert!(matches!(Timestamper::parse(text), Err(TimestamperError::InvalidScheme)), "{}", text);
    }
    assert_eq!(
        TimestamperError::InvalidScheme.to_string(),
        "Invalid timestamper scheme: expected 'digicert' or 'custom:http://...'"
    );
}
