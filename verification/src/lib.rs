//! Verified core of a chat-completion tool server: parameter validation,
//! conversation assembly, request construction, a single-slot time-bounded
//! cache for the model listing, and deterministic response rendering.

pub mod params;
pub mod textfmt;
pub mod validate;
pub mod jsonio;
pub mod messages;
pub mod request;
pub mod response;
pub mod render;
pub mod outcome;
pub mod cache;
pub mod orchestrate;
