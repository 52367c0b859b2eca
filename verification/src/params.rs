//! Caller-facing parameter types for the five tool entry points.
//!
//! The sampling temperature travels as the IEEE-754 bit pattern of the
//! caller's single-precision value (`f32::to_bits`); the bit-level
//! accepted set is defined in `validate`.

use vstd::prelude::*;

verus! {

/// Which live-lookup capabilities the search-augmented chat may use.
#[derive(Clone, Copy, Debug, PartialEq, Eq, Structural)]
pub enum SearchType {
    /// Search the web only.
    Web,
    /// Search X only.
    X,
    /// Search both web and X (default).
    Both,
}

impl Default for SearchType {
    fn default() -> (r: Self)
        ensures
            r == SearchType::Both,
    {
        SearchType::Both
    }
}

/// Image detail level for the vision chat.
#[derive(Clone, Copy, Debug, PartialEq, Eq, Structural)]
pub enum ImageDetail {
    /// Low detail: faster, fewer tokens.
    Low,
    /// High detail: more accurate (default).
    High,
    /// Let the model decide.
    Auto,
}

impl Default for ImageDetail {
    fn default() -> (r: Self)
        ensures
            r == ImageDetail::High,
    {
        ImageDetail::High
    }
}

/// The wire spelling of each detail level.
pub open spec fn spec_detail_str(d: ImageDetail) -> Seq<char> {
    match d {
        ImageDetail::Low => "low"@,
        ImageDetail::High => "high"@,
        ImageDetail::Auto => "auto"@,
    }
}

impl ImageDetail {
    /// Return the string representation used on the wire.
    pub fn as_str(&self) -> (s: &'static str)
        ensures
            s@ == spec_detail_str(*self),
    {
        match self {
            ImageDetail::Low => "low",
            ImageDetail::High => "high",
            ImageDetail::Auto => "auto",
        }
    }
}

/// Parameters of the plain chat tool.
pub struct ChatParams {
    /// The user message to send.
    pub prompt: String,
    /// Optional system directive, emitted first when present.
    pub system_prompt: Option<String>,
    /// Conversation history as a serialized list of role/content pairs;
    /// `prompt` is appended after it as the final user turn.
    pub messages: Option<String>,
    /// Model id; a fixed default applies when absent.
    pub model: Option<String>,
    /// Sampling temperature as IEEE-754 bits.
    pub temperature_bits: Option<u32>,
    /// Maximum tokens to generate.
    pub max_tokens: Option<u32>,
    /// Optional JSON schema document enforcing structured output.
    pub response_schema: Option<String>,
}

/// Parameters of the vision chat tool.
pub struct VisionParams {
    /// Text prompt describing what to analyse in the image.
    pub prompt: String,
    /// Image reference; must use an http or https scheme.
    pub image_url: String,
    /// Detail level; high when unspecified.
    pub detail: Option<ImageDetail>,
    /// Model id; a fixed default applies when absent.
    pub model: Option<String>,
    /// Sampling temperature as IEEE-754 bits.
    pub temperature_bits: Option<u32>,
    /// Maximum tokens to generate.
    pub max_tokens: Option<u32>,
}

/// Parameters of the search-augmented chat tool.
pub struct SearchParams {
    /// The user message to send.
    pub prompt: String,
    /// Optional system directive.
    pub system_prompt: Option<String>,
    /// Requested search mode; both when unspecified.
    pub search_type: Option<SearchType>,
    /// Model id; a fixed default applies when absent.
    pub model: Option<String>,
    /// Sampling temperature as IEEE-754 bits.
    pub temperature_bits: Option<u32>,
    /// Maximum output tokens.
    pub max_tokens: Option<u32>,
}

/// Parameters of the embedding tool.
pub struct EmbeddingParams {
    /// Text to embed, as JSON: a quoted string or an array of strings.
    pub input: String,
    /// Embedding model id; a fixed default applies when absent.
    pub model: Option<String>,
}

/// Configuration handed to the process at startup.
pub struct Config {
    /// The bearer credential forwarded on every outbound call.
    pub api_key: String,
}

} // verus!
