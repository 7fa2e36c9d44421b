use recording_analyzer::error::AppError;
use recording_analyzer::handler::{failure_reply, HandlerFailure, SUCCESS_STATUS};
use recording_analyzer::models::ErrorResponse;

#[test]
fn error_codes_by_kind() {
    assert_eq!(AppError::Timeout.error_code(), "PROCESSING_TIMEOUT");
    assert_eq!(AppError::AudioTooLong("x".to_string()).error_code(), "AUDIO_TOO_LONG");
    assert_eq!(AppError::Gemini("x".to_string()).error_code(), "TRANSCRIPTION_FAILED");
    assert_eq!(AppError::Reqwest("x".to_string()).error_code(), "INTERNAL_ERROR");
    assert_eq!(AppError::Serde("x".to_string()).error_code(), "INTERNAL_ERROR");
    assert_eq!(AppError::Io("x".to_string()).error_code(), "INTERNAL_ERROR");
    assert_eq!(AppError::Auth("x".to_string()).error_code(), "INTERNAL_ERROR");
    assert_eq!(AppError::Env("x".to_string()).error_code(), "INTERNAL_ERROR");
}

#[test]
fn user_messages_by_kind() {
    assert_eq!(
        AppError::Reqwest("timed out".to_string()).user_message(),
        "Error de conexión: timed out"
    );
    assert_eq!(
        AppError::Serde("expected value".to_string()).user_message(),
        "Error de procesamiento interno: expected value"
    );
    assert_eq!(AppError::Io("denied".to_string()).user_message(), "Error de E/S: denied");
    assert_eq!(
        AppError::Gemini("bad".to_string()).user_message(),
        "Error al procesar el audio: bad"
    );
    assert_eq!(
        AppError::Auth("no key".to_string()).user_message(),
        "Error de autenticación: no key"
    );
    assert_eq!(
        AppError::Env("VAR".to_string()).user_message(),
        "Error de configuración: VAR"
    );
    assert_eq!(
        AppError::Timeout.user_message(),
        "La solicitud excedió el tiempo máximo de procesamiento (240 segundos)"
    );
    assert_eq!(
        AppError::AudioTooLong("3h".to_string()).user_message(),
        "El audio es demasiado largo para procesarlo: 3h"
    );
}

#[test]
fn error_response_new_sets_flag() {
    let r = ErrorResponse::new("INVALID_REQUEST", "bad body");
    assert!(r.error);
    assert_eq!(r.code, "INVALID_REQUEST");
    assert_eq!(r.message, "bad body");
}

#[test]
fn error_response_from_app_error() {
    let r = ErrorResponse::from_app_error(&AppError::Gemini("HTTP Error 500".to_string()));
    assert!(r.error);
    assert_eq!(r.code, "TRANSCRIPTION_FAILED");
    assert_eq!(r.message, "Error al procesar el audio: HTTP Error 500");
}

#[test]
fn reply_to_invalid_request() {
    let r = failure_reply(&HandlerFailure::InvalidRequest("missing field `audio_url`".to_string()));
    assert_eq!(r.status_code, 400);
    assert!(r.body.error);
    assert_eq!(r.body.code, "INVALID_REQUEST");
    assert_eq!(r.body.message, "JSON inválido: missing field `audio_url`");
}

#[test]
fn reply_to_client_init_failure() {
    let r = failure_reply(&HandlerFailure::ClientInit);
    assert_eq!(r.status_code, 500);
    assert_eq!(r.body.code, "INTERNAL_ERROR");
    assert_eq!(r.body.message, "Error al inicializar el cliente de Gemini");
}

#[test]
fn reply_to_pipeline_failure() {
    let r = failure_reply(&HandlerFailure::Pipeline(AppError::Auth("expired".to_string())));
    assert_eq!(r.status_code, 500);
    assert_eq!(r.body.code, "INTERNAL_ERROR");
    assert_eq!(r.body.message, "Error de autenticación: expired");
}

#[test]
fn timeout_reply_matches_timeout_error() {
    let timed_out = failure_reply(&HandlerFailure::TimedOut);
    let reported = failure_reply(&HandlerFailure::Pipeline(AppError::Timeout));
    assert_eq!(timed_out.status_code, 408);
    assert_eq!(reported.status_code, 500);
    assert_eq!(timed_out.body.code, reported.body.code);
    assert_eq!(timed_out.body.message, reported.body.message);
    assert_ne!(timed_out.status_code, SUCCESS_STATUS);
}

#[test]
fn descriptions_by_kind() {
    assert_eq!(AppError::Reqwest("dns".to_string()).to_string(), "API request failed: dns");
    assert_eq!(
        AppError::Serde("eof".to_string()).to_string(),
        "JSON serialization/deserialization failed: eof"
    );
    assert_eq!(AppError::Io("x".to_string()).to_string(), "IO error: x");
    assert_eq!(AppError::Gemini("x".to_string()).to_string(), "Gemini API error: x");
    assert_eq!(AppError::Auth("x".to_string()).to_string(), "Google auth error: x");
    assert_eq!(AppError::Env("X".to_string()).to_string(), "Missing environment variable: X");
    assert_eq!(AppError::Timeout.to_string(), "Timeout error");
    assert_eq!(AppError::AudioTooLong("x".to_string()).to_string(), "Audio too long: x");
}
