//! Verified core of the recording analyzer: error reporting, request and reply
//! models, Vertex AI endpoint settings, Firebase Storage URL handling,
//! retry decisions, access-token caching and transcript bookkeeping.
pub mod error;
pub mod models;
pub mod text;
pub mod storage;
pub mod retry;
pub mod token;
pub mod auth;
pub mod vertex;
pub mod pipeline;
pub mod handler;
