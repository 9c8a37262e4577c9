use acsrs::connreq::Connreq;
use acsrs::AcsError;

fn endpoint() -> Connreq {
    Connreq {
        url: "http://192.168.1.7:7547/cr".to_string(),
        username: "acsrs".to_string(),
        password: "hunter2".to_string(),
    }
}

#[test]
fn test_first_response_without_auth_header_fails() {
    let c = endpoint();
    match c.on_first_response(&None) {
        Err(AcsError::AuthError) => (),
        other => panic!("expected AuthError, got {:?}", other.map(|_| ())),
    }
}

#[test]
fn test_first_response_with_digest_challenge_is_answered() {
    let c = endpoint();
    let challenge = "Digest realm=\"cpe\", nonce=\"abc\", qop=\"auth\"".to_string();
    let authorization = c.on_first_response(&Some(challenge)).unwrap();
    // The computed header answers the challenge with our credentials.
    assert!(authorization.starts_with("Digest"));
    assert!(authorization.contains("username=\"acsrs\""));
    assert!(authorization.contains("realm=\"cpe\""));
    assert!(authorization.contains("nonce=\"abc\""));
    assert!(authorization.contains("uri=\"/\""));
    assert!(authorization.contains("response="));
}

#[test]
fn test_first_response_with_non_ascii_challenge_fails() {
    // A non-ASCII parameter name would make the challenge parser slice
    // inside a multi-byte character; such a challenge is rejected, not
    // parsed.
    let c = endpoint();
    let challenge = "Digest é=\"x\", realm=\"cpe\", nonce=\"abc\"".to_string();
    match c.on_first_response(&Some(challenge)) {
        Err(AcsError::AuthError) => (),
        other => panic!("expected AuthError, got {:?}", other.map(|_| ())),
    }
}

#[test]
fn test_first_response_with_garbage_challenge_fails() {
    let c = endpoint();
    match c.on_first_response(&Some("not an auth challenge".to_string())) {
        Err(AcsError::AuthError) => (),
        other => panic!("expected AuthError, got {:?}", other.map(|_| ())),
    }
}

#[test]
fn test_second_response_succeeds_only_on_200() {
    let c = endpoint();
    assert!(c.on_second_response(200).is_ok());
    match c.on_second_response(403) {
        Err(AcsError::AuthError) => (),
        other => panic!("expected AuthError, got {:?}", other.map(|_| ())),
    }
    assert!(c.on_second_response(401).is_err());
    assert!(c.on_second_response(204).is_err());
}

#[test]
fn test_default_endpoint_credentials() {
    let c = Connreq::default();
    assert_eq!(&c.url, "");
    assert_eq!(&c.username, "acsrs");
    assert_eq!(c.password.len(), 32);
    assert!(c.password.chars().all(|ch| ch.is_ascii_alphanumeric()));
    // Two fresh endpoints draw independent passwords.
    let d = Connreq::default();
    assert_ne!(&c.password, &d.password);
}
