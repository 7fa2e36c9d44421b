use vstd::prelude::*;

use crate::error::{error_code_spec, user_message_spec, AppError};

verus! {

/// The body a caller posts: the URL of the recording to analyse.
#[derive(Debug, Clone)]
pub struct RequestPayload {
    pub audio_url: String,
}

/// The body of every failed reply.
#[derive(Debug, Clone)]
pub struct ErrorResponse {
    pub error: bool,
    pub code: String,
    pub message: String,
}

impl ErrorResponse {
    pub fn new(code: &str, message: &str) -> (r: ErrorResponse)
        ensures
            r.error,
            r.code@ == code@,
            r.message@ == message@,
    {
        ErrorResponse { error: true, code: String::from_str(code), message: String::from_str(message) }
    }

    pub fn from_app_error(err: &AppError) -> (r: ErrorResponse)
        ensures
            r.error,
            r.code@ == error_code_spec(*err),
            r.message@ == user_message_spec(*err),
    {
        ErrorResponse {
            error: true,
            code: String::from_str(err.error_code()),
            message: err.user_message(),
        }
    }
}

/// One block of the transcript: who spoke, when, and what was said.
#[derive(Debug, Clone)]
pub struct TranscriptItem {
    pub start_time: String,
    pub end_time: String,
    pub speaker: String,
    pub text: String,
}

/// A span of the conversation about one subject.
#[derive(Debug, Clone)]
pub struct Topic {
    pub start_time: String,
    pub end_time: String,
    pub title: String,
    pub description: String,
}

/// The executive summary, as bullet points.
#[derive(Debug, Clone)]
pub struct Summary {
    pub executive_summary: Vec<String>,
}

/// A task that came up in the meeting.
#[derive(Debug, Clone)]
pub struct ActionItem {
    pub task: String,
    pub owner: Option<String>,
    pub deadline: Option<String>,
    pub priority: Option<String>,
}

/// A memorable moment or quote.
#[derive(Debug, Clone)]
pub struct Highlight {
    pub start_time: String,
    pub end_time: String,
    pub description: String,
    pub reason: String,
}

} // verus!
