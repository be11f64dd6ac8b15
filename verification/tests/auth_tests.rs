use base64::Engine;
use keygen_portal::auth::{
    auth_attempt, auth_challenge_header, auth_lookup_key, auth_verify, parse_auth_header,
    unauthorized_body, username_ok, AuthAttempt,
};

fn basic_header(user: &str, pass: &str) -> String {
    let raw = format!("{}:{}", user, pass);
    let enc = base64::engine::general_purpose::STANDARD.encode(raw.as_bytes());
    format!("Basic {}", enc)
}

#[test]
fn well_formed_header_authenticates() {
    let header = Some(basic_header("Alice7", "s3cret"));
    let attempt = auth_attempt(&header);
    match &attempt {
        AuthAttempt::Credentials { username, password, lookup_key } => {
            assert_eq!(username.as_str(), "Alice7");
            assert_eq!(password.as_str(), "s3cret");
            assert_eq!(lookup_key.as_str(), "BASIC_AUTH_USER_alice7");
        }
        AuthAttempt::Invalid => panic!("expected credentials"),
    }
    let id = auth_verify(&attempt, &Some("s3cret".to_string()));
    assert_eq!(id, Some("Alice7".to_string()));
}

#[test]
fn password_change_is_rejected() {
    let header = Some(basic_header("alice", "s3cret"));
    let attempt = auth_attempt(&header);
    assert_eq!(auth_verify(&attempt, &Some("s3creT".to_string())), None);
    assert_eq!(auth_verify(&attempt, &Some("s3cret ".to_string())), None);
}

#[test]
fn username_change_changes_lookup_key() {
    let header = Some(basic_header("alicf", "s3cret"));
    let attempt = auth_attempt(&header);
    match &attempt {
        AuthAttempt::Credentials { lookup_key, .. } => {
            assert_eq!(lookup_key.as_str(), "BASIC_AUTH_USER_alicf");
        }
        AuthAttempt::Invalid => panic!("expected credentials"),
    }
}

#[test]
fn non_alphanumeric_username_is_rejected() {
    for user in ["al ice", "alice!", "über"] {
        let header = Some(basic_header(user, "pw"));
        assert!(matches!(auth_attempt(&header), AuthAttempt::Invalid));
    }
    assert!(!username_ok("al-ice"));
    assert!(username_ok("Alice7"));
    assert!(username_ok(""));
}

#[test]
fn missing_header_is_rejected() {
    let attempt = auth_attempt(&None);
    assert!(matches!(attempt, AuthAttempt::Invalid));
    assert_eq!(auth_verify(&attempt, &Some("pw".to_string())), None);
}

#[test]
fn empty_or_unconfigured_secret_is_rejected() {
    let header = Some(basic_header("alice", ""));
    let attempt = auth_attempt(&header);
    assert_eq!(auth_verify(&attempt, &Some(String::new())), None);
    assert_eq!(auth_verify(&attempt, &None), None);
}

#[test]
fn malformed_headers_do_not_parse() {
    assert!(parse_auth_header("Bearer abc").is_none());
    assert!(parse_auth_header("Basic !!!").is_none());
    assert!(parse_auth_header("Basic").is_none());
    assert!(parse_auth_header("").is_none());
    // valid base64, but no colon in the payload
    let enc = base64::engine::general_purpose::STANDARD.encode(b"alicepassword");
    assert!(parse_auth_header(&format!("Basic {}", enc)).is_none());
    // valid base64, but the payload is not UTF-8
    let enc = base64::engine::general_purpose::STANDARD.encode([0xff, 0xfe, b':', b'x']);
    assert!(parse_auth_header(&format!("Basic {}", enc)).is_none());
}

#[test]
fn password_keeps_everything_after_first_colon() {
    let header = basic_header("alice", "pa:ss");
    let parsed = parse_auth_header(&header).expect("header should parse");
    assert_eq!(parsed.0.as_str(), "alice");
    assert_eq!(parsed.1.as_str(), "pa:ss");
}

#[test]
fn lookup_key_lowercases_the_username() {
    assert_eq!(auth_lookup_key("MiXeD123").as_str(), "BASIC_AUTH_USER_mixed123");
    assert_eq!(auth_lookup_key("").as_str(), "BASIC_AUTH_USER_");
}

#[test]
fn any_header_bit_flip_is_rejected() {
    // one configured credential pair, looked up the way the host does it
    let secrets = |key: &str| -> Option<String> {
        if key == "BASIC_AUTH_USER_alice" {
            Some("s3cret".to_string())
        } else {
            None
        }
    };
    let authenticate = |header: &str| -> Option<String> {
        let attempt = auth_attempt(&Some(header.to_string()));
        let expected = match &attempt {
            AuthAttempt::Credentials { lookup_key, .. } => secrets(lookup_key),
            AuthAttempt::Invalid => None,
        };
        auth_verify(&attempt, &expected)
    };

    let header = basic_header("alice", "s3cret");
    assert_eq!(authenticate(&header), Some("alice".to_string()));

    // flipping any character of the encoded credentials must fail
    for i in "Basic ".len()..header.len() {
        let mut flipped: Vec<char> = header.chars().collect();
        flipped[i] = if flipped[i] == 'A' { 'B' } else { 'A' };
        let flipped: String = flipped.into_iter().collect();
        if flipped == header {
            continue;
        }
        assert_eq!(authenticate(&flipped), None, "flipped position {}", i);
    }
}

#[test]
fn rejection_response_carries_challenge_and_leaks_nothing() {
    let (name, value) = auth_challenge_header();
    assert_eq!(name, "WWW-Authenticate");
    assert_eq!(value, "Basic");
    assert_eq!(unauthorized_body(), "Unauthorized");
}
