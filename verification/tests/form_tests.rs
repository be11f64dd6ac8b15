use keygen_portal::form::{
    ct_str, ct_variants, error_text, gen_str, gen_variants, parse_challenge_type,
    parse_device_generation, validate_form, ChallengeType, DeviceGeneration, FormError, RawForm,
};

fn form(
    gen: Option<&str>,
    ct: Option<&str>,
    challenge: Option<&str>,
) -> RawForm {
    RawForm {
        h_captcha_response: None,
        device_generation: gen.map(|s| s.to_string()),
        challenge_type: ct.map(|s| s.to_string()),
        challenge: challenge.map(|s| s.to_string()),
    }
}

#[test]
fn enum_names_parse_exactly() {
    assert_eq!(parse_device_generation("MDM9x15"), Some(DeviceGeneration::MDM9x15));
    assert_eq!(parse_device_generation("mdm9x15"), None);
    assert_eq!(parse_device_generation(""), None);
    assert_eq!(parse_challenge_type("OPENLOCK"), Some(ChallengeType::Openlock));
    assert_eq!(parse_challenge_type("openlock"), None);
    assert_eq!(parse_challenge_type("OPENLOCK "), None);
    for g in gen_variants() {
        assert_eq!(parse_device_generation(gen_str(&g)), Some(g));
    }
    for t in ct_variants() {
        assert_eq!(parse_challenge_type(ct_str(&t)), Some(t));
    }
}

#[test]
fn valid_form_decodes_challenge() {
    let v = validate_form(true, &form(Some("MDM8200"), Some("OPENMEP"), Some("aAbB01")));
    assert_eq!(v.error, None);
    assert_eq!(v.device_generation, Some(DeviceGeneration::MDM8200));
    assert_eq!(v.device_generation_echo.as_deref(), Some("MDM8200"));
    assert_eq!(v.challenge_type, Some(ChallengeType::Openmep));
    assert_eq!(v.challenge_type_echo.as_deref(), Some("OPENMEP"));
    assert_eq!(v.challenge.as_deref(), Some("aAbB01"));
    assert_eq!(v.challenge_bytes, Some(vec![0xaa, 0xbb, 0x01]));
}

#[test]
fn device_generation_error_wins_when_both_enums_invalid() {
    let v = validate_form(true, &form(Some("bogus"), Some("nope"), Some("00")));
    assert_eq!(v.error, Some(FormError::InvalidDeviceGeneration));
    assert_eq!(error_text(&v.error.unwrap()).as_str(), "Invalid device generation");
    // the challenge type is still evaluated on its own: its error is
    // dropped, but its submitted text round-trips
    assert_eq!(v.challenge_type, None);
    assert_eq!(v.challenge_type_echo.as_deref(), Some("nope"));
    assert_eq!(v.device_generation_echo.as_deref(), Some("bogus"));
    // and the challenge still round-trips
    assert_eq!(v.challenge.as_deref(), Some("00"));
    assert_eq!(v.challenge_bytes, Some(vec![0x00]));
}

#[test]
fn challenge_echo_equals_trimmed_input() {
    // valid after trimming
    let v = validate_form(true, &form(Some("MDM8200"), Some("OPENLOCK"), Some("  0011aabb  ")));
    assert_eq!(v.challenge.as_deref(), Some("0011aabb"));
    assert_eq!(v.challenge_bytes, Some(vec![0x00, 0x11, 0xaa, 0xbb]));
    assert_eq!(v.error, None);
    // invalid input still echoes trimmed text
    let v = validate_form(true, &form(Some("MDM8200"), Some("OPENLOCK"), Some("\t00zz \n")));
    assert_eq!(v.challenge.as_deref(), Some("00zz"));
    assert_eq!(v.error, Some(FormError::InvalidChallenge));
    // resubmitting the echoed value echoes it unchanged
    let v = validate_form(true, &form(Some("MDM8200"), Some("OPENLOCK"), Some("00zz")));
    assert_eq!(v.challenge.as_deref(), Some("00zz"));
    // non-ASCII whitespace is trimmed too
    let v = validate_form(true, &form(Some("MDM8200"), Some("OPENLOCK"), Some("\u{a0}0011\u{a0}")));
    assert_eq!(v.challenge.as_deref(), Some("0011"));
    assert_eq!(v.error, None);
}

#[test]
fn missing_challenge_reports_invalid_challenge_and_keeps_selections() {
    let v = validate_form(true, &form(Some("MDM9x40"), Some("OPENCND"), None));
    assert_eq!(v.error, Some(FormError::InvalidChallenge));
    assert_eq!(error_text(&v.error.unwrap()).as_str(), "Invalid challenge");
    assert_eq!(v.device_generation, Some(DeviceGeneration::MDM9x40));
    assert_eq!(v.challenge_type, Some(ChallengeType::Opencnd));
    assert_eq!(v.challenge, None);
    assert_eq!(v.challenge_bytes, None);
}

#[test]
fn bad_challenges_are_rejected() {
    for bad in ["", "   ", "001", "0g", "0x11", "00 11"] {
        let v = validate_form(true, &form(Some("MDM8200"), Some("OPENLOCK"), Some(bad)));
        assert_eq!(v.error, Some(FormError::InvalidChallenge), "challenge {:?}", bad);
        assert_eq!(v.challenge_bytes, None);
    }
}

#[test]
fn captcha_failure_outranks_every_field_error() {
    let v = validate_form(false, &form(Some("bogus"), Some("nope"), Some("001")));
    assert_eq!(v.error, Some(FormError::InvalidCaptcha));
    assert_eq!(error_text(&v.error.unwrap()).as_str(), "Invalid CAPTCHA");
    // with a passing captcha the same form reports the first field error
    let v = validate_form(true, &form(Some("bogus"), Some("nope"), Some("001")));
    assert_eq!(v.error, Some(FormError::InvalidDeviceGeneration));
}

#[test]
fn challenge_type_error_comes_before_challenge_error() {
    let v = validate_form(true, &form(Some("MDM8200"), Some("nope"), Some("001")));
    assert_eq!(v.error, Some(FormError::InvalidChallengeType));
    assert_eq!(error_text(&v.error.unwrap()).as_str(), "Invalid challenge type");
}

#[test]
fn variant_lists_are_complete() {
    assert_eq!(gen_variants().len(), 5);
    assert_eq!(ct_variants().len(), 3);
    assert_eq!(ct_str(&ChallengeType::Openlock), "OPENLOCK");
    assert_eq!(gen_str(&DeviceGeneration::MDM9x30), "MDM9x30");
}
