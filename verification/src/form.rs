//! The ordered four-field form: closed enumerations for the device
//! generation and challenge type, hex decoding of the challenge, and the
//! deterministic first-error precedence over the captcha and field checks.
use vstd::prelude::*;

use crate::hexstr::{hex_bytes_of, hex_chars_ok, hex_decode};
use crate::text::{opt_str_view, opt_vec_view, str_eq, trim_str, trimmed};

verus! {

/// The closed set of device generations the generator knows.
#[allow(non_camel_case_types)]
#[derive(Clone, Copy, PartialEq, Eq, Structural, Debug)]
pub enum DeviceGeneration {
    MDM8200,
    MDM9x00,
    MDM9x15,
    MDM9x30,
    MDM9x40,
}

/// The closed set of unlock challenge types the generator knows.
#[derive(Clone, Copy, PartialEq, Eq, Structural, Debug)]
pub enum ChallengeType {
    Openlock,
    Openmep,
    Opencnd,
}

/// The wire name of a device generation, as submitted and displayed.
pub open spec fn gen_name(g: DeviceGeneration) -> Seq<char> {
    match g {
        DeviceGeneration::MDM8200 => "MDM8200"@,
        DeviceGeneration::MDM9x00 => "MDM9x00"@,
        DeviceGeneration::MDM9x15 => "MDM9x15"@,
        DeviceGeneration::MDM9x30 => "MDM9x30"@,
        DeviceGeneration::MDM9x40 => "MDM9x40"@,
    }
}

/// The wire name of a challenge type, as submitted and displayed.
pub open spec fn ct_name(t: ChallengeType) -> Seq<char> {
    match t {
        ChallengeType::Openlock => "OPENLOCK"@,
        ChallengeType::Openmep => "OPENMEP"@,
        ChallengeType::Opencnd => "OPENCND"@,
    }
}

/// Exhaustive parse of a device generation name; anything else is rejected.
pub open spec fn spec_parse_gen(s: Seq<char>) -> Option<DeviceGeneration> {
    if s == gen_name(DeviceGeneration::MDM8200) {
        Some(DeviceGeneration::MDM8200)
    } else if s == gen_name(DeviceGeneration::MDM9x00) {
        Some(DeviceGeneration::MDM9x00)
    } else if s == gen_name(DeviceGeneration::MDM9x15) {
        Some(DeviceGeneration::MDM9x15)
    } else if s == gen_name(DeviceGeneration::MDM9x30) {
        Some(DeviceGeneration::MDM9x30)
    } else if s == gen_name(DeviceGeneration::MDM9x40) {
        Some(DeviceGeneration::MDM9x40)
    } else {
        None
    }
}

/// Exhaustive parse of a challenge type name; anything else is rejected.
pub open spec fn spec_parse_ct(s: Seq<char>) -> Option<ChallengeType> {
    if s == ct_name(ChallengeType::Openlock) {
        Some(ChallengeType::Openlock)
    } else if s == ct_name(ChallengeType::Openmep) {
        Some(ChallengeType::Openmep)
    } else if s == ct_name(ChallengeType::Opencnd) {
        Some(ChallengeType::Opencnd)
    } else {
        None
    }
}

pub fn parse_device_generation(s: &str) -> (r: Option<DeviceGeneration>)
    ensures
        r == spec_parse_gen(s@),
{
    if str_eq(s, "MDM8200") {
        Some(DeviceGeneration::MDM8200)
    } else if str_eq(s, "MDM9x00") {
        Some(DeviceGeneration::MDM9x00)
    } else if str_eq(s, "MDM9x15") {
        Some(DeviceGeneration::MDM9x15)
    } else if str_eq(s, "MDM9x30") {
        Some(DeviceGeneration::MDM9x30)
    } else if str_eq(s, "MDM9x40") {
        Some(DeviceGeneration::MDM9x40)
    } else {
        None
    }
}

pub fn parse_challenge_type(s: &str) -> (r: Option<ChallengeType>)
    ensures
        r == spec_parse_ct(s@),
{
    if str_eq(s, "OPENLOCK") {
        Some(ChallengeType::Openlock)
    } else if str_eq(s, "OPENMEP") {
        Some(ChallengeType::Openmep)
    } else if str_eq(s, "OPENCND") {
        Some(ChallengeType::Opencnd)
    } else {
        None
    }
}

/// A parse is an exact match: when a device generation parses, the
/// submitted text is that variant's wire name, so re-displaying the name
/// re-displays the submission.
pub proof fn lemma_parse_gen_exact(s: Seq<char>)
    ensures
        spec_parse_gen(s) matches Some(g) ==> s == gen_name(g),
{
}

/// A parse is an exact match: when a challenge type parses, the submitted
/// text is that variant's wire name.
pub proof fn lemma_parse_ct_exact(s: Seq<char>)
    ensures
        spec_parse_ct(s) matches Some(t) ==> s == ct_name(t),
{
}

/// The wire name of a device generation, for display and log text.
pub fn gen_str(g: &DeviceGeneration) -> (r: &'static str)
    ensures
        r@ == gen_name(*g),
{
    match g {
        DeviceGeneration::MDM8200 => "MDM8200",
        DeviceGeneration::MDM9x00 => "MDM9x00",
        DeviceGeneration::MDM9x15 => "MDM9x15",
        DeviceGeneration::MDM9x30 => "MDM9x30",
        DeviceGeneration::MDM9x40 => "MDM9x40",
    }
}

/// The wire name of a challenge type, for display and log text.
pub fn ct_str(t: &ChallengeType) -> (r: &'static str)
    ensures
        r@ == ct_name(*t),
{
    match t {
        ChallengeType::Openlock => "OPENLOCK",
        ChallengeType::Openmep => "OPENMEP",
        ChallengeType::Opencnd => "OPENCND",
    }
}

/// Every device generation, in display order, for rendering the selector.
pub fn gen_variants() -> (r: Vec<DeviceGeneration>)
    ensures
        r@ == seq![
            DeviceGeneration::MDM8200,
            DeviceGeneration::MDM9x00,
            DeviceGeneration::MDM9x15,
            DeviceGeneration::MDM9x30,
            DeviceGeneration::MDM9x40,
        ],
{
    let mut v: Vec<DeviceGeneration> = Vec::new();
    v.push(DeviceGeneration::MDM8200);
    v.push(DeviceGeneration::MDM9x00);
    v.push(DeviceGeneration::MDM9x15);
    v.push(DeviceGeneration::MDM9x30);
    v.push(DeviceGeneration::MDM9x40);
    proof {
        assert(v@ =~= seq![
            DeviceGeneration::MDM8200,
            DeviceGeneration::MDM9x00,
            DeviceGeneration::MDM9x15,
            DeviceGeneration::MDM9x30,
            DeviceGeneration::MDM9x40,
        ]);
    }
    v
}

/// Every challenge type, in display order, for rendering the selector.
pub fn ct_variants() -> (r: Vec<ChallengeType>)
    ensures
        r@ == seq![ChallengeType::Openlock, ChallengeType::Openmep, ChallengeType::Opencnd],
{
    let mut v: Vec<ChallengeType> = Vec::new();
    v.push(ChallengeType::Openlock);
    v.push(ChallengeType::Openmep);
    v.push(ChallengeType::Opencnd);
    proof {
        assert(v@ =~= seq![ChallengeType::Openlock, ChallengeType::Openmep, ChallengeType::Opencnd]);
    }
    v
}

/// The form fields as submitted; a missing field is `None`.
pub struct RawForm {
    pub h_captcha_response: Option<String>,
    pub device_generation: Option<String>,
    pub challenge_type: Option<String>,
    pub challenge: Option<String>,
}

/// The four checks, in their fixed precedence order.
#[derive(Clone, Copy, PartialEq, Eq, Structural, Debug)]
pub enum FormError {
    InvalidCaptcha,
    InvalidDeviceGeneration,
    InvalidChallengeType,
    InvalidChallenge,
}

/// The message displayed for a failed check.
pub open spec fn spec_error_text(e: FormError) -> Seq<char> {
    match e {
        FormError::InvalidCaptcha => "Invalid CAPTCHA"@,
        FormError::InvalidDeviceGeneration => "Invalid device generation"@,
        FormError::InvalidChallengeType => "Invalid challenge type"@,
        FormError::InvalidChallenge => "Invalid challenge"@,
    }
}

pub fn error_text(e: &FormError) -> (r: String)
    ensures
        r@ == spec_error_text(*e),
{
    match e {
        FormError::InvalidCaptcha => String::from_str("Invalid CAPTCHA"),
        FormError::InvalidDeviceGeneration => String::from_str("Invalid device generation"),
        FormError::InvalidChallengeType => String::from_str("Invalid challenge type"),
        FormError::InvalidChallenge => String::from_str("Invalid challenge"),
    }
}

/// What the device generation field parses to; a missing field is invalid.
pub open spec fn spec_parse_gen_field(f: Option<Seq<char>>) -> Option<DeviceGeneration> {
    match f {
        Some(s) => spec_parse_gen(s),
        None => None,
    }
}

/// What the challenge type field parses to; a missing field is invalid.
pub open spec fn spec_parse_ct_field(f: Option<Seq<char>>) -> Option<ChallengeType> {
    match f {
        Some(s) => spec_parse_ct(s),
        None => None,
    }
}

/// The challenge value echoed back to the form: the submitted text with
/// surrounding whitespace removed, kept whether or not it decodes.
pub open spec fn spec_challenge_echo(f: Option<Seq<char>>) -> Option<Seq<char>> {
    match f {
        Some(s) => Some(trimmed(s)),
        None => None,
    }
}

/// A trimmed challenge is accepted when it is non-empty, even-length hex.
pub open spec fn spec_challenge_ok(t: Seq<char>) -> bool {
    t.len() > 0 && hex_chars_ok(t)
}

/// The decoded challenge bytes; empty, absent, odd-length or non-hex input
/// yields nothing.
pub open spec fn spec_challenge_bytes(f: Option<Seq<char>>) -> Option<Seq<u8>> {
    match f {
        Some(s) => if spec_challenge_ok(trimmed(s)) {
            Some(hex_bytes_of(trimmed(s)))
        } else {
            None
        },
        None => None,
    }
}

/// The first failed check in the fixed order: captcha, device generation,
/// challenge type, challenge. Later failures never displace an earlier one.
pub open spec fn spec_first_error(
    captcha_ok: bool,
    gen_ok: bool,
    ct_ok: bool,
    chal_ok: bool,
) -> Option<FormError> {
    if !captcha_ok {
        Some(FormError::InvalidCaptcha)
    } else if !gen_ok {
        Some(FormError::InvalidDeviceGeneration)
    } else if !ct_ok {
        Some(FormError::InvalidChallengeType)
    } else if !chal_ok {
        Some(FormError::InvalidChallenge)
    } else {
        None
    }
}

/// The error the whole form reports, over the raw field views.
pub open spec fn spec_form_error(
    captcha_ok: bool,
    g: Option<Seq<char>>,
    t: Option<Seq<char>>,
    c: Option<Seq<char>>,
) -> Option<FormError> {
    spec_first_error(
        captcha_ok,
        spec_parse_gen_field(g) is Some,
        spec_parse_ct_field(t) is Some,
        spec_challenge_bytes(c) is Some,
    )
}

/// The outcome of validating one submission. Every field is evaluated, so
/// its round-trip value is kept for re-display even when the form as a
/// whole is rejected: each enumeration field keeps both its parse result
/// and its as-submitted text (the text survives even when the parse
/// fails); `error` is the first failed check or nothing.
pub struct Validation {
    pub device_generation: Option<DeviceGeneration>,
    pub device_generation_echo: Option<String>,
    pub challenge_type: Option<ChallengeType>,
    pub challenge_type_echo: Option<String>,
    pub challenge: Option<String>,
    pub challenge_bytes: Option<Vec<u8>>,
    pub error: Option<FormError>,
}

/// Validates the four checks in their fixed order. Each field's round-trip
/// value is computed from that field alone; the submitted text of the two
/// enumeration fields is echoed back exactly as it came, parsed or not;
/// the reported error is the first failure and is never overwritten by a
/// later one.
pub fn validate_form(captcha_ok: bool, form: &RawForm) -> (r: Validation)
    ensures
        r.device_generation == spec_parse_gen_field(opt_str_view(form.device_generation)),
        opt_str_view(r.device_generation_echo) == opt_str_view(form.device_generation),
        r.challenge_type == spec_parse_ct_field(opt_str_view(form.challenge_type)),
        opt_str_view(r.challenge_type_echo) == opt_str_view(form.challenge_type),
        opt_str_view(r.challenge) == spec_challenge_echo(opt_str_view(form.challenge)),
        opt_vec_view(r.challenge_bytes) == spec_challenge_bytes(opt_str_view(form.challenge)),
        r.error == spec_form_error(
            captcha_ok,
            opt_str_view(form.device_generation),
            opt_str_view(form.challenge_type),
            opt_str_view(form.challenge),
        ),
{
    let (device_generation, device_generation_echo) = match &form.device_generation {
        Some(s) => (parse_device_generation(s.as_str()), Some(s.clone())),
        None => (None, None),
    };
    let (challenge_type, challenge_type_echo) = match &form.challenge_type {
        Some(s) => (parse_challenge_type(s.as_str()), Some(s.clone())),
        None => (None, None),
    };
    let (challenge, challenge_bytes): (Option<String>, Option<Vec<u8>>) = match &form.challenge {
        Some(s) => {
            let t = trim_str(s.as_str());
            let bytes = if t.as_str().unicode_len() == 0 {
                None
            } else {
                hex_decode(t.as_str())
            };
            (Some(t), bytes)
        },
        None => (None, None),
    };
    let error = if !captcha_ok {
        Some(FormError::InvalidCaptcha)
    } else if device_generation.is_none() {
        Some(FormError::InvalidDeviceGeneration)
    } else if challenge_type.is_none() {
        Some(FormError::InvalidChallengeType)
    } else if challenge_bytes.is_none() {
        Some(FormError::InvalidChallenge)
    } else {
        None
    };
    Validation {
        device_generation,
        device_generation_echo,
        challenge_type,
        challenge_type_echo,
        challenge,
        challenge_bytes,
        error,
    }
}

/// Precedence law: when the device generation and the challenge type are
/// both invalid, the reported error is the device generation's, spelled
/// exactly "Invalid device generation"; the challenge type's own error is
/// dropped, but its submitted text still round-trips — `validate_form` and
/// `plan_post` ensure the echo equals the as-submitted value, whatever the
/// parse said.
pub proof fn lemma_device_generation_error_first(
    captcha_ok: bool,
    g: Option<Seq<char>>,
    t: Option<Seq<char>>,
    c: Option<Seq<char>>,
)
    requires
        captcha_ok,
        spec_parse_gen_field(g) is None,
        spec_parse_ct_field(t) is None,
    ensures
        spec_form_error(captcha_ok, g, t, c) == Some(FormError::InvalidDeviceGeneration),
        spec_error_text(FormError::InvalidDeviceGeneration) == "Invalid device generation"@,
{
}

/// Validity law: a submission reports no error exactly when all four
/// checks passed — the captcha, both enumerations, and the challenge.
/// A fully validated form therefore exists only in that case.
pub proof fn lemma_validated_iff_all_checks_pass(
    captcha_ok: bool,
    g: Option<Seq<char>>,
    t: Option<Seq<char>>,
    c: Option<Seq<char>>,
)
    ensures
        spec_form_error(captcha_ok, g, t, c) is None <==> (captcha_ok && spec_parse_gen_field(
            g,
        ) is Some && spec_parse_ct_field(t) is Some && spec_challenge_bytes(c) is Some),
{
}

/// Fail-closed reporting law: when the captcha gate failed, the captcha
/// error has first precedence and is what the re-rendered form displays,
/// whatever the other fields hold — a failed gate is never silently passed.
pub proof fn lemma_captcha_failure_reported_first(
    g: Option<Seq<char>>,
    t: Option<Seq<char>>,
    c: Option<Seq<char>>,
)
    ensures
        spec_form_error(false, g, t, c) == Some(FormError::InvalidCaptcha),
        spec_error_text(FormError::InvalidCaptcha) == "Invalid CAPTCHA"@,
{
}

/// When the captcha gate passed, validation proceeds to the fields: the
/// reported error, if any, concerns a field and never the captcha.
pub proof fn lemma_captcha_pass_reaches_fields(
    g: Option<Seq<char>>,
    t: Option<Seq<char>>,
    c: Option<Seq<char>>,
)
    ensures
        spec_form_error(true, g, t, c) != Some(FormError::InvalidCaptcha),
{
}

/// Round-trip law: whatever challenge text is submitted, valid or not, the
/// value echoed back to the form is exactly the trimmed submission; and
/// trimming is idempotent, so resubmitting the echoed value echoes it
/// unchanged.
pub proof fn lemma_challenge_echo_round_trip(c: Seq<char>)
    ensures
        spec_challenge_echo(Some(c)) == Some(trimmed(c)),
        spec_challenge_echo(Some(trimmed(c))) == Some(trimmed(c)),
{
    crate::text::lemma_trimmed_idempotent(c);
}

} // verus!
