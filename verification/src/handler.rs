use vstd::prelude::*;

use crate::error::{error_code_spec, user_message_spec, AppError};
use crate::models::ErrorResponse;

verus! {

/// The status of a reply that carries the analysis.
pub const SUCCESS_STATUS: i64 = 200;

/// Why a request was not answered with an analysis.
#[derive(Debug, Clone)]
pub enum HandlerFailure {
    /// The request body was not a valid payload; the decoder's error text.
    InvalidRequest(String),
    /// The Gemini client could not be set up.
    ClientInit,
    /// The pipeline failed.
    Pipeline(AppError),
    /// The pipeline did not finish within `PROCESSING_TIMEOUT_SECONDS`.
    TimedOut,
}

/// A failed reply: its HTTP status and its body.
#[derive(Debug, Clone)]
pub struct ErrorReply {
    pub status_code: i64,
    pub body: ErrorResponse,
}

/// The status, code and message of the reply to a failure.
pub open spec fn failure_reply_spec(f: HandlerFailure) -> (i64, Seq<char>, Seq<char>) {
    match f {
        HandlerFailure::InvalidRequest(d) => (400, "INVALID_REQUEST"@, "JSON inválido: "@ + d@),
        HandlerFailure::ClientInit => (
            500,
            "INTERNAL_ERROR"@,
            "Error al inicializar el cliente de Gemini"@,
        ),
        HandlerFailure::Pipeline(e) => (500, error_code_spec(e), user_message_spec(e)),
        HandlerFailure::TimedOut => (
            408,
            "PROCESSING_TIMEOUT"@,
            "La solicitud excedió el tiempo máximo de procesamiento (240 segundos)"@,
        ),
    }
}

pub open spec fn reply_view(r: ErrorReply) -> (i64, Seq<char>, Seq<char>) {
    (r.status_code, r.body.code@, r.body.message@)
}

/// The reply sent for a failure.
pub fn failure_reply(f: &HandlerFailure) -> (r: ErrorReply)
    ensures
        r.body.error,
        reply_view(r) == failure_reply_spec(*f),
{
    match f {
        HandlerFailure::InvalidRequest(d) => {
            let message = String::from_str("JSON inválido: ").concat(d.as_str());
            ErrorReply {
                status_code: 400,
                body: ErrorResponse::new("INVALID_REQUEST", message.as_str()),
            }
        },
        HandlerFailure::ClientInit => ErrorReply {
            status_code: 500,
            body: ErrorResponse::new(
                "INTERNAL_ERROR",
                "Error al inicializar el cliente de Gemini",
            ),
        },
        HandlerFailure::Pipeline(e) => ErrorReply {
            status_code: 500,
            body: ErrorResponse::from_app_error(e),
        },
        HandlerFailure::TimedOut => ErrorReply {
            status_code: 408,
            body: ErrorResponse::new(
                "PROCESSING_TIMEOUT",
                "La solicitud excedió el tiempo máximo de procesamiento (240 segundos)",
            ),
        },
    }
}

/// A request that runs out of time is answered with the same code and message
/// as a pipeline that reports a timeout error, with status 408 instead of 500.
pub proof fn lemma_timeout_reply_matches_timeout_error()
    ensures
        failure_reply_spec(HandlerFailure::TimedOut).1 == failure_reply_spec(
            HandlerFailure::Pipeline(AppError::Timeout),
        ).1,
        failure_reply_spec(HandlerFailure::TimedOut).2 == failure_reply_spec(
            HandlerFailure::Pipeline(AppError::Timeout),
        ).2,
        failure_reply_spec(HandlerFailure::TimedOut).0 == 408,
        failure_reply_spec(HandlerFailure::Pipeline(AppError::Timeout)).0 == 500,
{
}

/// Every failure is answered with an error status: a client error for a bad
/// request or a timeout, a server error otherwise.
pub proof fn lemma_failures_get_error_status(f: HandlerFailure)
    ensures
        400 <= failure_reply_spec(f).0 < 600,
        failure_reply_spec(f).0 != SUCCESS_STATUS,
{
}

} // verus!

verus! {

/// The status of each kind of failure: every pipeline failure (whatever the
/// error) and a client that cannot be set up get 500, a malformed request gets
/// 400, and a request that runs out of time gets 408.
pub proof fn lemma_failure_statuses(e: AppError, d: String)
    ensures
        failure_reply_spec(HandlerFailure::Pipeline(e)).0 == 500,
        failure_reply_spec(HandlerFailure::ClientInit).0 == 500,
        failure_reply_spec(HandlerFailure::InvalidRequest(d)).0 == 400,
        failure_reply_spec(HandlerFailure::TimedOut).0 == 408,
        failure_reply_spec(HandlerFailure::Pipeline(e)).1 == error_code_spec(e),
        failure_reply_spec(HandlerFailure::Pipeline(e)).2 == user_message_spec(e),
{
}

} // verus!
