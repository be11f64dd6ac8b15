//! A verified request-processing pipeline for a gated unlock-code web form.
//!
//! The pipeline in front of an opaque unlock-code generator: credential
//! gating, optional bot-mitigation gating, ordered multi-field form
//! validation with deterministic first-error precedence, composition with
//! the generator, and best-effort deferred logging. The generator itself,
//! page rendering and all I/O are collaborators outside this crate.
use vstd::prelude::*;

pub mod auth;
pub mod captcha;
pub mod form;
pub mod handler;
pub mod logbuf;
pub mod hexstr;
pub mod text;

verus! {

/// The request methods routing distinguishes; anything else is `Other`.
pub enum Method {
    Get,
    Post,
    Other,
}

/// Where a request goes after routing.
#[derive(Clone, Copy, PartialEq, Eq, Structural, Debug)]
pub enum Route {
    /// `GET /`: render the empty form.
    ShowForm,
    /// `POST /`: run the validation and generation pipeline.
    SubmitForm,
    /// Any other path.
    NotFound,
    /// Another method on `/`.
    MethodNotAllowed,
}

/// Routes a request: any path but `/` is not found, whatever the method;
/// on `/` only `GET` and `POST` are served.
pub fn route(path: &str, method: &Method) -> (r: Route)
    ensures
        path@ != "/"@ ==> r == Route::NotFound,
        path@ == "/"@ && method is Get ==> r == Route::ShowForm,
        path@ == "/"@ && method is Post ==> r == Route::SubmitForm,
        path@ == "/"@ && method is Other ==> r == Route::MethodNotAllowed,
{
    if !crate::text::str_eq(path, "/") {
        Route::NotFound
    } else {
        match method {
            Method::Get => Route::ShowForm,
            Method::Post => Route::SubmitForm,
            Method::Other => Route::MethodNotAllowed,
        }
    }
}

/// The status code each route answers with when it bypasses the pipeline;
/// the two served routes answer 200.
pub fn route_status(r: &Route) -> (s: u16)
    ensures
        r is NotFound ==> s == 404,
        r is MethodNotAllowed ==> s == 405,
        r is ShowForm || r is SubmitForm ==> s == 200,
{
    match r {
        Route::NotFound => 404,
        Route::MethodNotAllowed => 405,
        _ => 200,
    }
}

} // verus!
