//! Outbound request construction: plain chat, search-augmented chat and
//! embeddings.  Requests are built fresh per call and never mutated
//! after construction.

use vstd::prelude::*;
use vstd::string::StringExecFns;

use crate::jsonio::{json_parse_of, parse_json_value};
use crate::messages::{spec_text_message, ChatMessage};
use crate::params::SearchType;
use crate::textfmt::spec_starts_with;

verus! {

/// The model used when a chat call names none.
pub open spec fn spec_default_model() -> Seq<char> {
    "grok-4-1-fast-non-reasoning"@
}

/// The model used when an embedding call names none.
pub open spec fn spec_default_embedding_model() -> Seq<char> {
    "grok-2-text-embedding"@
}

/// Return the fixed default chat model id.
pub fn default_model() -> (m: String)
    ensures
        m@ == spec_default_model(),
{
    "grok-4-1-fast-non-reasoning".to_owned()
}

/// Return the fixed default embedding model id.
pub fn default_embedding_model() -> (m: String)
    ensures
        m@ == spec_default_embedding_model(),
{
    "grok-2-text-embedding".to_owned()
}

/// The model a call runs against: the caller's choice, or the default.
pub open spec fn spec_chosen_model(model: Option<&str>, default: Seq<char>) -> Seq<char> {
    match model {
        Some(m) => m@,
        None => default,
    }
}

fn chosen_model(model: Option<&str>, default: String) -> (m: String)
    ensures
        m@ == spec_chosen_model(model, default@),
{
    match model {
        Some(m) => m.to_owned(),
        None => default,
    }
}

/// The fixed wrapper that turns a caller-supplied JSON schema into the
/// remote service's structured-output contract.  Its kind and name are
/// fixed and its strictness flag is always on.
#[derive(Debug)]
pub struct SchemaEnvelope {
    /// Always the fixed kind tag `json_schema`.
    pub envelope_type: String,
    /// Always the fixed name `structured_output`.
    pub name: String,
    /// Always `true`.
    pub strict: bool,
    /// The caller's schema document, parsed and carried through.
    pub schema: serde_json::Value,
}

/// The envelope carries the fixed shape: kind `json_schema`, name
/// `structured_output`, strictness on.
pub open spec fn spec_envelope_well_formed(e: SchemaEnvelope) -> bool {
    &&& e.envelope_type@ == "json_schema"@
    &&& e.name@ == "structured_output"@
    &&& e.strict == true
}

/// A capability descriptor for the search-augmented endpoint.
#[derive(Clone, Copy, Debug, PartialEq, Eq, Structural)]
pub enum SearchTool {
    /// Live web search.
    WebSearch,
    /// Live X search.
    XSearch,
}

/// The tool list each search mode derives: web before X, both in that
/// fixed order when both are requested.
pub open spec fn spec_search_tools(t: SearchType) -> Seq<SearchTool> {
    match t {
        SearchType::Web => seq![SearchTool::WebSearch],
        SearchType::X => seq![SearchTool::XSearch],
        SearchType::Both => seq![SearchTool::WebSearch, SearchTool::XSearch],
    }
}

/// Derive the search tool list for a requested mode.
pub fn search_tools(search_type: SearchType) -> (tools: Vec<SearchTool>)
    ensures
        tools@ == spec_search_tools(search_type),
{
    let mut tools: Vec<SearchTool> = Vec::new();
    match search_type {
        SearchType::Web => {
            tools.push(SearchTool::WebSearch);
        },
        SearchType::X => {
            tools.push(SearchTool::XSearch);
        },
        SearchType::Both => {
            tools.push(SearchTool::WebSearch);
            tools.push(SearchTool::XSearch);
        },
    }
    proof {
        assert(tools@ =~= spec_search_tools(search_type));
    }
    tools
}

/// A chat completion request.
#[derive(Debug)]
pub struct ChatRequest {
    /// The model id.
    pub model: String,
    /// The ordered conversation; never reordered.
    pub messages: Vec<ChatMessage>,
    /// Sampling temperature as IEEE-754 bits, carried through unchanged.
    pub temperature_bits: Option<u32>,
    /// Maximum tokens to generate, carried through unchanged.
    pub max_tokens: Option<u32>,
    /// The structured-output envelope, when a schema was supplied.
    pub response_format: Option<SchemaEnvelope>,
    /// Capability descriptors, when supplied.
    pub tools: Option<Vec<SearchTool>>,
}

impl ChatRequest {
    /// Create a new chat request with the given model and messages and
    /// every optional field absent.
    pub fn new(model: &str, messages: Vec<ChatMessage>) -> (r: Self)
        ensures
            r.model@ == model@,
            r.messages == messages,
            r.temperature_bits is None,
            r.max_tokens is None,
            r.response_format is None,
            r.tools is None,
    {
        ChatRequest {
            model: model.to_owned(),
            messages,
            temperature_bits: None,
            max_tokens: None,
            response_format: None,
            tools: None,
        }
    }
}

/// The prefix of every report about a schema that could not be read.
pub open spec fn spec_schema_err_prefix() -> Seq<char> {
    "Invalid response_schema JSON: "@
}

/// Shape a validated conversation into a chat request: apply the
/// default model when none is named, carry temperature and token limit
/// through unchanged, and wrap a supplied schema into the fixed
/// envelope with the parsed schema document embedded unchanged.  Fails
/// exactly when a supplied schema is not well-formed JSON.
pub fn build_chat_request(
    model: Option<&str>,
    messages: Vec<ChatMessage>,
    temperature_bits: Option<u32>,
    max_tokens: Option<u32>,
    response_schema: Option<&str>,
    tools: Option<Vec<SearchTool>>,
) -> (r: Result<ChatRequest, String>)
    ensures
        r is Ok <==> (response_schema matches Some(s) ==> json_parse_of(s@) is Some),
        r matches Ok(req) ==> ({
            &&& req.model@ == spec_chosen_model(model, spec_default_model())
            &&& req.messages == messages
            &&& req.temperature_bits == temperature_bits
            &&& req.max_tokens == max_tokens
            &&& (response_schema is None ==> req.response_format is None)
            &&& (response_schema matches Some(s) ==> (req.response_format matches Some(env)
                && spec_envelope_well_formed(env) && Some(env.schema) == json_parse_of(s@)))
            &&& req.tools == tools
        }),
        r matches Err(e) ==> spec_starts_with(e@, spec_schema_err_prefix()),
{
    let response_format = match response_schema {
        Some(schema_str) => {
            match parse_json_value(schema_str) {
                Ok(schema) => Some(
                    SchemaEnvelope {
                        envelope_type: "json_schema".to_owned(),
                        name: "structured_output".to_owned(),
                        strict: true,
                        schema,
                    },
                ),
                Err(e) => {
                    let mut m = "Invalid response_schema JSON: ".to_owned();
                    m.append(e.as_str());
                    proof {
                        assert(m@.subrange(0, spec_schema_err_prefix().len() as int)
                            =~= spec_schema_err_prefix());
                    }
                    return Err(m);
                },
            }
        },
        None => None,
    };
    let mut req = ChatRequest::new(chosen_model(model, default_model()).as_str(), messages);
    req.temperature_bits = temperature_bits;
    req.max_tokens = max_tokens;
    req.response_format = response_format;
    req.tools = tools;
    Ok(req)
}

/// A request to the search-augmented endpoint.  The tool list is
/// derived from the requested search mode, never caller-supplied.
#[derive(Debug)]
pub struct SearchRequest {
    /// The model id.
    pub model: String,
    /// The conversation: an optional system turn, then one user turn.
    pub input: Vec<ChatMessage>,
    /// Sampling temperature as IEEE-754 bits, carried through unchanged.
    pub temperature_bits: Option<u32>,
    /// Maximum output tokens, carried through unchanged.
    pub max_output_tokens: Option<u32>,
    /// The derived capability descriptors.
    pub tools: Vec<SearchTool>,
}

/// Shape a search-augmented request: the default model when none is
/// named, an optional system turn followed by one user turn, and the
/// tool list derived from the mode.
pub fn build_search_request(
    model: Option<&str>,
    system_prompt: Option<&str>,
    prompt: &str,
    search_type: SearchType,
    temperature_bits: Option<u32>,
    max_output_tokens: Option<u32>,
) -> (r: SearchRequest)
    ensures
        r.model@ == spec_chosen_model(model, spec_default_model()),
        r.input@.len() == if system_prompt is Some {
            2int
        } else {
            1int
        },
        system_prompt matches Some(sp) ==> spec_text_message("system"@, sp@, r.input@[0]),
        spec_text_message("user"@, prompt@, r.input@[r.input@.len() - 1]),
        r.temperature_bits == temperature_bits,
        r.max_output_tokens == max_output_tokens,
        r.tools@ == spec_search_tools(search_type),
{
    let mut input: Vec<ChatMessage> = Vec::new();
    if let Some(sys) = system_prompt {
        input.push(ChatMessage::system(sys));
    }
    input.push(ChatMessage::user(prompt));
    SearchRequest {
        model: chosen_model(model, default_model()),
        input,
        temperature_bits,
        max_output_tokens,
        tools: search_tools(search_type),
    }
}

/// An embedding request: the input passes through structurally
/// unchanged as parsed JSON.
#[derive(Debug)]
pub struct EmbeddingRequest {
    /// The embedding model id.
    pub model: String,
    /// A JSON string or JSON array of strings, carried through.
    pub input: serde_json::Value,
}

/// The prefix of every report about an embedding input that could not
/// be read.
pub open spec fn spec_embedding_err_prefix() -> Seq<char> {
    "Invalid input JSON (must be a quoted string or array of strings): "@
}

/// Shape an embedding request: parse the raw input as JSON, pass it
/// through structurally unchanged, and apply the default embedding
/// model when none is named.  Fails exactly when the input is not
/// well-formed JSON.
pub fn build_embedding_request(input_json: &str, model: Option<&str>) -> (r: Result<
    EmbeddingRequest,
    String,
>)
    ensures
        r is Ok <==> json_parse_of(input_json@) is Some,
        r matches Ok(req) ==> (req.model@ == spec_chosen_model(model, spec_default_embedding_model())
            && Some(req.input) == json_parse_of(input_json@)),
        r matches Err(e) ==> spec_starts_with(e@, spec_embedding_err_prefix()),
{
    match parse_json_value(input_json) {
        Ok(input) => Ok(
            EmbeddingRequest { model: chosen_model(model, default_embedding_model()), input },
        ),
        Err(e) => {
            let mut m = "Invalid input JSON (must be a quoted string or array of strings): ".to_owned();
            m.append(e.as_str());
            proof {
                assert(m@.subrange(0, spec_embedding_err_prefix().len() as int)
                    =~= spec_embedding_err_prefix());
            }
            Err(m)
        },
    }
}

/// Join the configured base endpoint and a call's path.
pub fn request_url(base_url: &str, path: &str) -> (u: String)
    ensures
        u@ == base_url@ + path@,
{
    let mut u = base_url.to_owned();
    u.append(path);
    u
}

/// The bearer credential header value sent on every outbound call.
pub fn bearer_header(api_key: &str) -> (h: String)
    ensures
        h@ == "Bearer "@ + api_key@,
{
    let mut h = "Bearer ".to_owned();
    h.append(api_key);
    h
}

} // verus!
