//! The bot-mitigation check. It is disabled unless both a verification
//! secret and a site key are configured; when enabled it requires a
//! non-empty token and a positive answer from the external verifier, and
//! fails closed on a missing token, a transport error, or an answer that
//! could not be parsed.
use vstd::prelude::*;

verus! {

/// The two values that must both be configured to enable the check.
pub struct CaptchaConfig {
    pub secret: String,
    pub sitekey: String,
}

/// Reads the captcha configuration: enabled exactly when both the secret
/// and the site key are present.
pub fn captcha_config(secret: Option<String>, sitekey: Option<String>) -> (r: Option<CaptchaConfig>)
    ensures
        r is Some <==> (secret is Some && sitekey is Some),
        r matches Some(c) ==> ((secret matches Some(s) && c.secret@ == s@) && (sitekey matches Some(
            k,
        ) && c.sitekey@ == k@)),
{
    match (secret, sitekey) {
        (Some(secret), Some(sitekey)) => Some(CaptchaConfig { secret, sitekey }),
        _ => None,
    }
}

/// What the captcha check decides before any outside call is made.
pub enum CaptchaPlan {
    /// The check is not configured: every request passes.
    Pass,
    /// The check is configured but the request brought no usable token:
    /// rejected without calling the verifier.
    Reject,
    /// The check is configured and a non-empty token was supplied: the
    /// external verifier must be asked about this token.
    Verify { token: String },
}

/// The payload-free shape of a plan, for stating the captcha laws.
#[derive(Clone, Copy, PartialEq, Eq, Structural, Debug)]
pub enum CaptchaPlanKind {
    Pass,
    Reject,
    Verify,
}

/// The shape of a concrete plan.
pub open spec fn plan_kind(p: &CaptchaPlan) -> CaptchaPlanKind {
    match p {
        CaptchaPlan::Pass => CaptchaPlanKind::Pass,
        CaptchaPlan::Reject => CaptchaPlanKind::Reject,
        CaptchaPlan::Verify { .. } => CaptchaPlanKind::Verify,
    }
}

/// What the captcha check plans, over whether it is enabled and the
/// submitted token.
pub open spec fn spec_captcha_plan(enabled: bool, token: Option<Seq<char>>) -> CaptchaPlanKind {
    if !enabled {
        CaptchaPlanKind::Pass
    } else if token matches Some(t) && t.len() > 0 {
        CaptchaPlanKind::Verify
    } else {
        CaptchaPlanKind::Reject
    }
}

/// Whether the captcha check passes, given the plan and what the
/// verifier answered;
/// no answer, or anything but an affirmative one, fails.
pub open spec fn spec_captcha_verdict(kind: CaptchaPlanKind, verifier: Option<bool>) -> bool {
    match kind {
        CaptchaPlanKind::Pass => true,
        CaptchaPlanKind::Reject => false,
        CaptchaPlanKind::Verify => verifier == Some(true),
    }
}

/// The whole check: enabled state and token decide the plan, the verifier's
/// answer (consulted only when the plan asks for it) decides the rest.
pub open spec fn spec_captcha_passed(
    enabled: bool,
    token: Option<Seq<char>>,
    verifier: Option<bool>,
) -> bool {
    spec_captcha_verdict(spec_captcha_plan(enabled, token), verifier)
}

/// First captcha stage, before any outside call: pass when unconfigured,
/// reject when configured without a non-empty token, otherwise hand the
/// token out for verification.
pub fn captcha_plan(config: &Option<CaptchaConfig>, token: &Option<String>) -> (r: CaptchaPlan)
    ensures
        plan_kind(&r) == spec_captcha_plan(config is Some, crate::text::opt_str_view(*token)),
        r matches CaptchaPlan::Verify { token: t } ==> (token matches Some(t0) && t@ == t0@),
{
    match config {
        None => CaptchaPlan::Pass,
        Some(_) => match token {
            Some(t) => {
                if t.as_str().unicode_len() > 0 {
                    CaptchaPlan::Verify { token: t.clone() }
                } else {
                    CaptchaPlan::Reject
                }
            },
            None => CaptchaPlan::Reject,
        },
    }
}

/// Second captcha stage: folds in what the verifier answered. `None` stands
/// for an unreachable verifier or an answer that did not parse, and fails.
pub fn captcha_passed(plan: &CaptchaPlan, verifier_said: &Option<bool>) -> (r: bool)
    ensures
        r == spec_captcha_verdict(plan_kind(plan), *verifier_said),
{
    match plan {
        CaptchaPlan::Pass => true,
        CaptchaPlan::Reject => false,
        CaptchaPlan::Verify { .. } => match verifier_said {
            Some(true) => true,
            _ => false,
        },
    }
}

/// The verification endpoint the token is sent to, with form fields
/// `response`, `secret` and `sitekey`.
pub fn siteverify_url() -> (r: &'static str)
    ensures
        r@ == "https://hcaptcha.com/siteverify"@,
{
    "https://hcaptcha.com/siteverify"
}

/// Captcha law: when the check is unconfigured, every request passes it,
/// whatever token was or was not submitted and whatever a verifier might
/// have said — the request proceeds to field validation.
pub proof fn lemma_captcha_disabled_passes(token: Option<Seq<char>>, verifier: Option<bool>)
    ensures
        spec_captcha_passed(false, token, verifier),
{
}

/// Fail-closed law: when the check is enabled, a request passes only with a
/// non-empty token and an affirmative verifier answer; an unreachable
/// verifier or an unparsable answer (no verdict) never passes.
pub proof fn lemma_captcha_fail_closed(token: Option<Seq<char>>, verifier: Option<bool>)
    requires
        verifier != Some(true),
    ensures
        !spec_captcha_passed(true, token, verifier),
{
}

} // verus!
