use keygen_portal::captcha::{
    captcha_config, captcha_passed, captcha_plan, siteverify_url, CaptchaPlan,
};

#[test]
fn captcha_needs_both_values_to_enable() {
    assert!(captcha_config(None, None).is_none());
    assert!(captcha_config(Some("sec".to_string()), None).is_none());
    assert!(captcha_config(None, Some("key".to_string())).is_none());
    let c = captcha_config(Some("sec".to_string()), Some("key".to_string())).unwrap();
    assert_eq!(c.secret.as_str(), "sec");
    assert_eq!(c.sitekey.as_str(), "key");
}

#[test]
fn unconfigured_captcha_passes_with_or_without_token() {
    let plan = captcha_plan(&None, &None);
    assert!(matches!(plan, CaptchaPlan::Pass));
    assert!(captcha_passed(&plan, &None));
    let plan = captcha_plan(&None, &Some("tok".to_string()));
    assert!(matches!(plan, CaptchaPlan::Pass));
    assert!(captcha_passed(&plan, &Some(false)));
}

#[test]
fn enabled_captcha_rejects_missing_or_empty_token_without_calling_out() {
    let config = captcha_config(Some("sec".to_string()), Some("key".to_string()));
    let plan = captcha_plan(&config, &None);
    assert!(matches!(plan, CaptchaPlan::Reject));
    assert!(!captcha_passed(&plan, &Some(true)));
    let plan = captcha_plan(&config, &Some(String::new()));
    assert!(matches!(plan, CaptchaPlan::Reject));
}

#[test]
fn enabled_captcha_fails_closed_without_a_verdict() {
    let config = captcha_config(Some("sec".to_string()), Some("key".to_string()));
    let plan = captcha_plan(&config, &Some("tok".to_string()));
    match &plan {
        CaptchaPlan::Verify { token } => assert_eq!(token.as_str(), "tok"),
        _ => panic!("expected a verification plan"),
    }
    // unreachable verifier or unparsable answer
    assert!(!captcha_passed(&plan, &None));
    // explicit refusal
    assert!(!captcha_passed(&plan, &Some(false)));
    // only an affirmative answer passes
    assert!(captcha_passed(&plan, &Some(true)));
}

#[test]
fn verification_endpoint_is_fixed() {
    assert_eq!(siteverify_url(), "https://hcaptcha.com/siteverify");
}
