//! Composition of the submit pipeline: the validated form becomes either a
//! re-rendered page carrying the first error, or a single generation
//! request for the opaque unlock-code generator; the generator's result
//! then becomes the final page and the entries logged about the attempt.
use vstd::prelude::*;

use crate::form::{
    ct_name, ct_str, error_text, gen_name, gen_str, spec_challenge_bytes, spec_challenge_echo,
    spec_error_text, spec_form_error, spec_parse_ct_field, spec_parse_gen_field, validate_form,
    ChallengeType, DeviceGeneration, RawForm,
};
use crate::hexstr::{hex_encode_upper, upper_hex_chars};
use crate::logbuf::{make_log, LogLevel, LogMessage};
use crate::text::opt_str_view;

verus! {

/// Everything the page renderer consumes: each enumeration field's parse
/// result and its as-submitted text (the text round-trips even when the
/// parse failed), the trimmed challenge, the generator's response when
/// there is one, the captcha site key when the captcha check is
/// configured, and at most one error message.
pub struct PageModel {
    pub device_generation: Option<DeviceGeneration>,
    pub device_generation_echo: Option<String>,
    pub challenge_type: Option<ChallengeType>,
    pub challenge_type_echo: Option<String>,
    pub challenge: Option<String>,
    pub challenge_response: Option<Vec<u8>>,
    pub hcaptcha_sitekey: Option<String>,
    pub error_msg: Option<String>,
}

/// The page a GET renders: every field empty, no error, the captcha
/// challenge present only when the captcha check is configured.
pub fn empty_page(hcaptcha_sitekey: Option<String>) -> (r: PageModel)
    ensures
        r.device_generation is None,
        r.device_generation_echo is None,
        r.challenge_type is None,
        r.challenge_type_echo is None,
        r.challenge is None,
        r.challenge_response is None,
        r.error_msg is None,
        opt_str_view(r.hcaptcha_sitekey) == opt_str_view(hcaptcha_sitekey),
{
    PageModel {
        device_generation: None,
        device_generation_echo: None,
        challenge_type: None,
        challenge_type_echo: None,
        challenge: None,
        challenge_response: None,
        hcaptcha_sitekey,
        error_msg: None,
    }
}

/// One invocation of the opaque generator, with what is needed to finish
/// the page afterwards.
pub struct GenerationRequest {
    pub username: String,
    pub device_generation: DeviceGeneration,
    pub challenge_type: ChallengeType,
    pub challenge_bytes: Vec<u8>,
    pub challenge: String,
    pub hcaptcha_sitekey: Option<String>,
}

/// What a submission leads to. A present error message and a generator
/// invocation exclude each other: a rejected form carries no request, so
/// the generator is never reached once any check failed.
pub enum PostOutcome {
    Rejected { page: PageModel },
    Generate { request: GenerationRequest, log: LogMessage },
}

/// The entry logged before the generator runs.
pub open spec fn spec_generation_log(
    u: Seq<char>,
    g: DeviceGeneration,
    t: ChallengeType,
    c: Seq<char>,
) -> Seq<char> {
    u + " generating code for "@ + gen_name(g) + " "@ + ct_name(t) + " "@ + c
}

/// Validates a submission and decides its fate: the first failed check
/// re-renders the page with that check's message and every field's
/// round-trip value, and nothing is generated; a fully valid form yields
/// exactly one generation request and the entry to log about it.
pub fn plan_post(
    username: &str,
    captcha_ok: bool,
    form: &RawForm,
    hcaptcha_sitekey: Option<String>,
) -> (r: PostOutcome)
    ensures
        spec_form_error(
            captcha_ok,
            opt_str_view(form.device_generation),
            opt_str_view(form.challenge_type),
            opt_str_view(form.challenge),
        ) matches Some(e) ==> (r matches PostOutcome::Rejected { page } && ({
            &&& page.device_generation == spec_parse_gen_field(opt_str_view(form.device_generation))
            &&& opt_str_view(page.device_generation_echo) == opt_str_view(form.device_generation)
            &&& page.challenge_type == spec_parse_ct_field(opt_str_view(form.challenge_type))
            &&& opt_str_view(page.challenge_type_echo) == opt_str_view(form.challenge_type)
            &&& opt_str_view(page.challenge) == spec_challenge_echo(opt_str_view(form.challenge))
            &&& page.challenge_response is None
            &&& (page.error_msg matches Some(m) && m@ == spec_error_text(e))
            &&& opt_str_view(page.hcaptcha_sitekey) == opt_str_view(hcaptcha_sitekey)
        })),
        spec_form_error(
            captcha_ok,
            opt_str_view(form.device_generation),
            opt_str_view(form.challenge_type),
            opt_str_view(form.challenge),
        ) is None ==> (r matches PostOutcome::Generate { request, log } && ({
            &&& request.username@ == username@
            &&& Some(request.device_generation) == spec_parse_gen_field(
                opt_str_view(form.device_generation),
            )
            &&& Some(request.challenge_type) == spec_parse_ct_field(
                opt_str_view(form.challenge_type),
            )
            &&& Some(request.challenge_bytes@) == spec_challenge_bytes(
                opt_str_view(form.challenge),
            )
            &&& Some(request.challenge@) == spec_challenge_echo(opt_str_view(form.challenge))
            &&& opt_str_view(form.device_generation) == Some(gen_name(request.device_generation))
            &&& opt_str_view(form.challenge_type) == Some(ct_name(request.challenge_type))
            &&& opt_str_view(request.hcaptcha_sitekey) == opt_str_view(hcaptcha_sitekey)
            &&& log.metadata.level == LogLevel::Info
            &&& log.message@ == spec_generation_log(
                username@,
                request.device_generation,
                request.challenge_type,
                request.challenge@,
            )
        })),
{
    let v = validate_form(captcha_ok, form);
    match v.error {
        Some(e) => PostOutcome::Rejected {
            page: PageModel {
                device_generation: v.device_generation,
                device_generation_echo: v.device_generation_echo,
                challenge_type: v.challenge_type,
                challenge_type_echo: v.challenge_type_echo,
                challenge: v.challenge,
                challenge_response: None,
                hcaptcha_sitekey,
                error_msg: Some(error_text(&e)),
            },
        },
        None => {
            proof {
                match opt_str_view(form.device_generation) {
                    Some(s) => crate::form::lemma_parse_gen_exact(s),
                    None => (),
                }
                match opt_str_view(form.challenge_type) {
                    Some(s) => crate::form::lemma_parse_ct_exact(s),
                    None => (),
                }
            }
            let g = v.device_generation.unwrap();
            let t = v.challenge_type.unwrap();
            let challenge_bytes = v.challenge_bytes.unwrap();
            let challenge = v.challenge.unwrap();
            let message = String::from_str(username).concat(" generating code for ").concat(
                gen_str(&g),
            ).concat(" ").concat(ct_str(&t)).concat(" ").concat(challenge.as_str());
            let log = make_log(LogLevel::Info, message);
            PostOutcome::Generate {
                request: GenerationRequest {
                    username: String::from_str(username),
                    device_generation: g,
                    challenge_type: t,
                    challenge_bytes,
                    challenge,
                    hcaptcha_sitekey,
                },
                log,
            }
        },
    }
}

/// The message displayed when the generator fails.
pub open spec fn spec_error_display(e: Seq<char>) -> Seq<char> {
    "Error: "@ + e
}

/// The entry logged when the generator fails.
pub open spec fn spec_generation_error_log(e: Seq<char>) -> Seq<char> {
    "got error while generating challenge: "@ + e
}

/// Builds the final page from the generator's result: a success shows the
/// response bytes and no error; a failure shows the formatted error and is
/// logged at Error level. Either way the submitted values round-trip: a
/// generating form parsed exactly, so each enumeration's wire name is the
/// text that was submitted.
pub fn finish_post(request: GenerationRequest, result: Result<Vec<u8>, String>) -> (r: (
    PageModel,
    Option<LogMessage>,
))
    ensures
        r.0.device_generation == Some(request.device_generation),
        (r.0.device_generation_echo matches Some(s) && s@ == gen_name(request.device_generation)),
        r.0.challenge_type == Some(request.challenge_type),
        (r.0.challenge_type_echo matches Some(s) && s@ == ct_name(request.challenge_type)),
        (r.0.challenge matches Some(c) && c@ == request.challenge@),
        opt_str_view(r.0.hcaptcha_sitekey) == opt_str_view(request.hcaptcha_sitekey),
        result matches Ok(v) ==> ({
            &&& (r.0.challenge_response matches Some(b) && b@ == v@)
            &&& r.0.error_msg is None
            &&& r.1 is None
        }),
        result matches Err(e) ==> ({
            &&& r.0.challenge_response is None
            &&& (r.0.error_msg matches Some(m) && m@ == spec_error_display(e@))
            &&& (r.1 matches Some(l) && l.metadata.level == LogLevel::Error && l.message@
                == spec_generation_error_log(e@))
        }),
{
    let device_generation_echo = Some(String::from_str(gen_str(&request.device_generation)));
    let challenge_type_echo = Some(String::from_str(ct_str(&request.challenge_type)));
    match result {
        Ok(v) => (
            PageModel {
                device_generation: Some(request.device_generation),
                device_generation_echo,
                challenge_type: Some(request.challenge_type),
                challenge_type_echo,
                challenge: Some(request.challenge),
                challenge_response: Some(v),
                hcaptcha_sitekey: request.hcaptcha_sitekey,
                error_msg: None,
            },
            None,
        ),
        Err(e) => {
            let log = make_log(
                LogLevel::Error,
                String::from_str("got error while generating challenge: ").concat(e.as_str()),
            );
            (
                PageModel {
                    device_generation: Some(request.device_generation),
                    device_generation_echo,
                    challenge_type: Some(request.challenge_type),
                    challenge_type_echo,
                    challenge: Some(request.challenge),
                    challenge_response: None,
                    hcaptcha_sitekey: request.hcaptcha_sitekey,
                    error_msg: Some(String::from_str("Error: ").concat(e.as_str())),
                },
                Some(log),
            )
        },
    }
}

/// How a successful response is displayed: the unlock command with the
/// response bytes hex-encoded in uppercase.
pub open spec fn spec_response_line(t: ChallengeType, b: Seq<u8>) -> Seq<char> {
    "AT!"@ + ct_name(t) + "=\""@ + upper_hex_chars(b) + "\""@
}

/// Renders the unlock command line for a successful generation.
pub fn response_line(t: &ChallengeType, response: &Vec<u8>) -> (r: String)
    ensures
        r@ == spec_response_line(*t, response@),
{
    let hex = hex_encode_upper(response);
    String::from_str("AT!").concat(ct_str(t)).concat("=\"").concat(hex.as_str()).concat("\"")
}

} // verus!
