use vstd::prelude::*;

verus! {

/// Seconds the whole pipeline may run before the request is answered with a timeout.
pub const PROCESSING_TIMEOUT_SECONDS: u64 = 240;

/// Failures of the pipeline. Failures that come from an outside library
/// (HTTP client, JSON codec, file system) carry the text that library
/// gave for the failure.
#[derive(Debug, Clone)]
pub enum AppError {
    Reqwest(String),
    Serde(String),
    Io(String),
    Gemini(String),
    Auth(String),
    Env(String),
    Timeout,
    AudioTooLong(String),
}

/// The machine-readable code reported for an error.
pub open spec fn error_code_spec(e: AppError) -> Seq<char> {
    match e {
        AppError::Timeout => "PROCESSING_TIMEOUT"@,
        AppError::AudioTooLong(_) => "AUDIO_TOO_LONG"@,
        AppError::Gemini(_) => "TRANSCRIPTION_FAILED"@,
        _ => "INTERNAL_ERROR"@,
    }
}

/// The message shown to the user for an error.
pub open spec fn user_message_spec(e: AppError) -> Seq<char> {
    match e {
        AppError::Reqwest(d) => "Error de conexión: "@ + d@,
        AppError::Serde(d) => "Error de procesamiento interno: "@ + d@,
        AppError::Io(d) => "Error de E/S: "@ + d@,
        AppError::Gemini(d) => "Error al procesar el audio: "@ + d@,
        AppError::Auth(d) => "Error de autenticación: "@ + d@,
        AppError::Env(d) => "Error de configuración: "@ + d@,
        AppError::Timeout => "La solicitud excedió el tiempo máximo de procesamiento (240 segundos)"@,
        AppError::AudioTooLong(d) => "El audio es demasiado largo para procesarlo: "@ + d@,
    }
}

/// The one-line description of an error, as written in logs.
pub open spec fn description_spec(e: AppError) -> Seq<char> {
    match e {
        AppError::Reqwest(d) => "API request failed: "@ + d@,
        AppError::Serde(d) => "JSON serialization/deserialization failed: "@ + d@,
        AppError::Io(d) => "IO error: "@ + d@,
        AppError::Gemini(d) => "Gemini API error: "@ + d@,
        AppError::Auth(d) => "Google auth error: "@ + d@,
        AppError::Env(d) => "Missing environment variable: "@ + d@,
        AppError::Timeout => "Timeout error"@,
        AppError::AudioTooLong(d) => "Audio too long: "@ + d@,
    }
}

fn prefixed(prefix: &str, detail: &String) -> (r: String)
    ensures
        r@ == prefix@ + detail@,
{
    String::from_str(prefix).concat(detail.as_str())
}

impl AppError {
    pub fn error_code(&self) -> (code: &'static str)
        ensures
            code@ == error_code_spec(*self),
    {
        match self {
            AppError::Timeout => "PROCESSING_TIMEOUT",
            AppError::AudioTooLong(_) => "AUDIO_TOO_LONG",
            AppError::Gemini(_) => "TRANSCRIPTION_FAILED",
            _ => "INTERNAL_ERROR",
        }
    }

    /// The description of the error (what its `Display` form would print).
    pub fn to_string(&self) -> (text: String)
        ensures
            text@ == description_spec(*self),
    {
        match self {
            AppError::Reqwest(e) => prefixed("API request failed: ", e),
            AppError::Serde(e) => prefixed("JSON serialization/deserialization failed: ", e),
            AppError::Io(e) => prefixed("IO error: ", e),
            AppError::Gemini(e) => prefixed("Gemini API error: ", e),
            AppError::Auth(e) => prefixed("Google auth error: ", e),
            AppError::Env(e) => prefixed("Missing environment variable: ", e),
            AppError::Timeout => String::from_str("Timeout error"),
            AppError::AudioTooLong(e) => prefixed("Audio too long: ", e),
        }
    }

    pub fn user_message(&self) -> (msg: String)
        ensures
            msg@ == user_message_spec(*self),
    {
        match self {
            AppError::Reqwest(e) => prefixed("Error de conexión: ", e),
            AppError::Serde(e) => prefixed("Error de procesamiento interno: ", e),
            AppError::Io(e) => prefixed("Error de E/S: ", e),
            AppError::Gemini(e) => prefixed("Error al procesar el audio: ", e),
            AppError::Auth(e) => prefixed("Error de autenticación: ", e),
            AppError::Env(e) => prefixed("Error de configuración: ", e),
            AppError::Timeout => String::from_str(
                "La solicitud excedió el tiempo máximo de procesamiento (240 segundos)",
            ),
            AppError::AudioTooLong(msg) => prefixed(
                "El audio es demasiado largo para procesarlo: ",
                msg,
            ),
        }
    }
}

} // verus!

verus! {

/// Every code is `INTERNAL_ERROR` except those of a timeout, an audio that is
/// too long and a Gemini failure; and every user message ends with the detail
/// that the error carries.
pub proof fn lemma_codes_and_messages(d: String)
    ensures
        error_code_spec(AppError::Timeout) == "PROCESSING_TIMEOUT"@,
        error_code_spec(AppError::AudioTooLong(d)) == "AUDIO_TOO_LONG"@,
        error_code_spec(AppError::Gemini(d)) == "TRANSCRIPTION_FAILED"@,
        error_code_spec(AppError::Reqwest(d)) == "INTERNAL_ERROR"@,
        error_code_spec(AppError::Serde(d)) == "INTERNAL_ERROR"@,
        error_code_spec(AppError::Io(d)) == "INTERNAL_ERROR"@,
        error_code_spec(AppError::Auth(d)) == "INTERNAL_ERROR"@,
        error_code_spec(AppError::Env(d)) == "INTERNAL_ERROR"@,
        forall|e: AppError|
            !(e is Timeout) ==> {
                let m = #[trigger] user_message_spec(e);
                let detail = match e {
                    AppError::Reqwest(x) => x@,
                    AppError::Serde(x) => x@,
                    AppError::Io(x) => x@,
                    AppError::Gemini(x) => x@,
                    AppError::Auth(x) => x@,
                    AppError::Env(x) => x@,
                    AppError::AudioTooLong(x) => x@,
                    AppError::Timeout => Seq::empty(),
                };
                &&& m.len() >= detail.len()
                &&& m.skip(m.len() - detail.len()) == detail
            },
{
    assert forall|e: AppError| !(e is Timeout) implies {
        let m = #[trigger] user_message_spec(e);
        let detail = match e {
            AppError::Reqwest(x) => x@,
            AppError::Serde(x) => x@,
            AppError::Io(x) => x@,
            AppError::Gemini(x) => x@,
            AppError::Auth(x) => x@,
            AppError::Env(x) => x@,
            AppError::AudioTooLong(x) => x@,
            AppError::Timeout => Seq::empty(),
        };
        &&& m.len() >= detail.len()
        &&& m.skip(m.len() - detail.len()) == detail
    } by {
        let m = user_message_spec(e);
        match e {
            AppError::Reqwest(x) => { assert(m.skip(m.len() - x@.len()) =~= x@); },
            AppError::Serde(x) => { assert(m.skip(m.len() - x@.len()) =~= x@); },
            AppError::Io(x) => { assert(m.skip(m.len() - x@.len()) =~= x@); },
            AppError::Gemini(x) => { assert(m.skip(m.len() - x@.len()) =~= x@); },
            AppError::Auth(x) => { assert(m.skip(m.len() - x@.len()) =~= x@); },
            AppError::Env(x) => { assert(m.skip(m.len() - x@.len()) =~= x@); },
            AppError::AudioTooLong(x) => { assert(m.skip(m.len() - x@.len()) =~= x@); },
            AppError::Timeout => {},
        }
    }
}

} // verus!
