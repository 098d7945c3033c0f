//! The callback finalizer: what to do with the provider's redirect back to
//! `/login/finalize`, and with the result of exchanging its code.
use vstd::prelude::*;

use crate::session::{issue, issued, CookieJar};

verus! {

/// Page the browser is sent to when the provider reports an error.
pub const EMAIL_NOT_VERIFIED_PAGE: &'static str = "/error/email_not_verified";

/// Destination after login when the callback names none.
pub const DEFAULT_DESTINATION: &'static str = "/";

/// The query parameters of the callback.
#[derive(Debug)]
pub struct Finalize {
    pub code: Option<String>,
    pub state: Option<String>,
    pub error: Option<String>,
    pub error_description: Option<String>,
}

/// The answer sent to the browser.
#[derive(Debug)]
pub enum Reply {
    /// `302` to the given target.
    Redirect(String),
    /// `401`.
    Unauthorized,
    /// `500`: the exchange claimed success with an identity token that was not decoded.
    InternalError,
}

/// What the first inspection of the callback asks for.
#[derive(Debug)]
pub enum Step {
    /// The callback is answered at once.
    Respond(Reply),
    /// The code is to be exchanged; `state` is kept as the destination.
    Exchange { code: String, state: Option<String> },
}

/// Why exchanging a code failed.
#[derive(Clone, Copy, Debug, PartialEq, Eq, Structural)]
pub enum ExchangeError {
    Network,
    Decode,
    Validation,
}

/// What exchanging the code gave.
#[derive(Clone, Copy, Debug, PartialEq, Eq, Structural)]
pub enum ExchangeOutcome {
    Failed(ExchangeError),
    /// The provider answered without an identity token.
    NoIdentityToken,
    /// An identity token came back and passed validation; `decoded` tells
    /// whether it is in its decoded form, as the exchange promises.
    Token { decoded: bool },
}

/// Whether the reply is a redirect to `target`.
pub open spec fn redirects_to(r: Reply, target: Seq<char>) -> bool {
    match r {
        Reply::Redirect(t) => t@ == target,
        _ => false,
    }
}

/// Where a completed login sends the browser: `state`, else `/`.
pub open spec fn destination(state: Option<String>) -> Seq<char> {
    match state {
        Some(s) => s@,
        None => DEFAULT_DESTINATION@,
    }
}

/// The first transition of the callback: a code goes to the exchange; without
/// one, a complete error pair redirects to the error page and anything else
/// is `401`.
pub fn finalize(f: Finalize) -> (r: Step)
    ensures
        f.code is Some ==> r == (Step::Exchange { code: f.code->0, state: f.state }),
        f.code is None && f.error is Some && f.error_description is Some ==> (r matches Step::Respond(
            reply,
        ) && redirects_to(reply, EMAIL_NOT_VERIFIED_PAGE@)),
        f.code is None && !(f.error is Some && f.error_description is Some) ==> r
            == Step::Respond(Reply::Unauthorized),
{
    match f.code {
        Some(code) => Step::Exchange { code, state: f.state },
        None => {
            if f.error.is_some() && f.error_description.is_some() {
                Step::Respond(Reply::Redirect(String::from_str(EMAIL_NOT_VERIFIED_PAGE)))
            } else {
                Step::Respond(Reply::Unauthorized)
            }
        },
    }
}

/// The transitions after the exchange: a failure or a missing identity token
/// is `401`, an undecoded token is an internal fault, and a validated token
/// sets the session cookie and redirects to the destination. Only the last
/// touches the jar.
pub fn complete(state: Option<String>, outcome: ExchangeOutcome, jar: &mut CookieJar) -> (r: Reply)
    ensures
        outcome is Failed || outcome is NoIdentityToken ==> r == Reply::Unauthorized
            && final(jar)@ == old(jar)@,
        outcome == (ExchangeOutcome::Token { decoded: false }) ==> r == Reply::InternalError
            && final(jar)@ == old(jar)@,
        outcome == (ExchangeOutcome::Token { decoded: true }) ==> redirects_to(
            r,
            destination(state),
        ) && final(jar)@ == issued(old(jar)@),
{
    match outcome {
        ExchangeOutcome::Failed(_) => Reply::Unauthorized,
        ExchangeOutcome::NoIdentityToken => Reply::Unauthorized,
        ExchangeOutcome::Token { decoded } => {
            if !decoded {
                return Reply::InternalError;
            }
            issue(jar);
            let target = match state {
                Some(s) => s,
                None => String::from_str(DEFAULT_DESTINATION),
            };
            Reply::Redirect(target)
        },
    }
}

} // verus!
