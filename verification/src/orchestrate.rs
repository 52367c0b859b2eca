//! The per-tool decision pipelines: validate, then build.  Everything
//! up to the outbound call is decided here; the caller dispatches the
//! finished request, classifies the answer with `outcome`, and renders
//! it with `render`.  A rejection here is an invalid-parameters
//! outcome produced strictly before any network interaction, and each
//! pipeline succeeds exactly when every check of its inputs passes,
//! with every rejection tied to the check that failed.

use vstd::prelude::*;

use crate::jsonio::json_parse_of;
use crate::messages::{
    build_messages, spec_built_messages, spec_history_err, spec_history_ok, valid_role,
    ChatMessage, MessageContent,
};
use crate::params::{
    ChatParams, EmbeddingParams, ImageDetail, SearchParams, SearchType, VisionParams,
};
use crate::request::{
    build_chat_request, build_embedding_request, build_search_request,
    spec_default_embedding_model, spec_default_model, spec_embedding_err_prefix,
    spec_envelope_well_formed, spec_schema_err_prefix, spec_search_tools, ChatRequest,
    EmbeddingRequest, SearchRequest,
};
use crate::textfmt::spec_starts_with;
use crate::validate::{
    spec_image_url_accepted, spec_image_url_error, spec_temperature_error, temp_bits_accepted,
    validate_image_url, validate_temperature,
};

verus! {

/// The view of an optional owned string.
pub open spec fn opt_text(o: Option<String>) -> Option<Seq<char>> {
    match o {
        Some(s) => Some(s@),
        None => None,
    }
}

/// The temperature parameter passes validation: absent, or accepted.
pub open spec fn spec_temperature_ok(bits: Option<u32>) -> bool {
    bits matches Some(b) ==> temp_bits_accepted(b)
}

/// The history parameter passes validation: absent, or good.
pub open spec fn spec_messages_ok(messages: Option<String>) -> bool {
    messages matches Some(h) ==> spec_history_ok(h@)
}

/// The schema parameter passes validation: absent, or well-formed
/// JSON.
pub open spec fn spec_schema_ok(schema: Option<String>) -> bool {
    schema matches Some(s) ==> json_parse_of(s@) is Some
}

fn opt_str(o: &Option<String>) -> (r: Option<&str>)
    ensures
        r is Some <==> o is Some,
        r matches Some(s) ==> (o matches Some(t) && s@ == t@),
{
    match o {
        Some(s) => Some(s.as_str()),
        None => None,
    }
}

/// Validate and build a plain chat call: temperature first, then the
/// conversation, then the request with its optional schema envelope.
/// Succeeds exactly when temperature, history and schema all pass;
/// each rejection carries the reason of the first check that failed,
/// strictly before any outbound call.
pub fn prepare_chat(p: &ChatParams) -> (r: Result<ChatRequest, String>)
    ensures
        r is Ok <==> (spec_temperature_ok(p.temperature_bits) && spec_messages_ok(p.messages)
            && spec_schema_ok(p.response_schema)),
        r matches Ok(req) ==> ({
            &&& req.model@ == spec_chosen_model_text(p.model, spec_default_model())
            &&& req.temperature_bits == p.temperature_bits
            &&& req.max_tokens == p.max_tokens
            &&& (p.response_schema is Some <==> req.response_format is Some)
            &&& (p.response_schema matches Some(s) ==> (req.response_format matches Some(env)
                && spec_envelope_well_formed(env) && Some(env.schema) == json_parse_of(s@)))
            &&& req.tools is None
            &&& spec_built_messages(
                opt_text(p.system_prompt),
                opt_text(p.messages),
                p.prompt@,
                req.messages@,
            )
        }),
        !spec_temperature_ok(p.temperature_bits) ==> (r matches Err(m) && m@
            == spec_temperature_error()),
        (spec_temperature_ok(p.temperature_bits) && !spec_messages_ok(p.messages)) ==> (
        p.messages matches Some(h) && r matches Err(m) && spec_history_err(h@, m@)),
        (spec_temperature_ok(p.temperature_bits) && spec_messages_ok(p.messages)
            && !spec_schema_ok(p.response_schema)) ==> (r matches Err(m) && spec_starts_with(
            m@,
            spec_schema_err_prefix(),
        )),
{
    if let Err(m) = validate_temperature(p.temperature_bits) {
        return Err(m);
    }
    let messages = match build_messages(
        opt_str(&p.system_prompt),
        opt_str(&p.messages),
        p.prompt.as_str(),
    ) {
        Ok(msgs) => msgs,
        Err(m) => {
            return Err(m);
        },
    };
    build_chat_request(
        opt_str(&p.model),
        messages,
        p.temperature_bits,
        p.max_tokens,
        opt_str(&p.response_schema),
        None,
    )
}

/// The model a call runs against, phrased over the caller's owned
/// parameter.
pub open spec fn spec_chosen_model_text(model: Option<String>, default: Seq<char>) -> Seq<char> {
    match model {
        Some(m) => m@,
        None => default,
    }
}

/// Validate and build a vision chat call: the image reference must
/// use an http or https scheme and the temperature must be accepted;
/// the conversation is one user turn carrying the text segment and
/// the image reference, detail high when unspecified.
pub fn prepare_vision(p: &VisionParams) -> (r: Result<ChatRequest, String>)
    ensures
        r is Ok <==> (spec_image_url_accepted(p.image_url@) && spec_temperature_ok(
            p.temperature_bits,
        )),
        !spec_image_url_accepted(p.image_url@) ==> (r matches Err(m) && m@
            == spec_image_url_error()),
        (spec_image_url_accepted(p.image_url@) && !spec_temperature_ok(p.temperature_bits)) ==> (
        r matches Err(m) && m@ == spec_temperature_error()),
        r matches Ok(req) ==> ({
            &&& req.model@ == spec_chosen_model_text(p.model, spec_default_model())
            &&& req.temperature_bits == p.temperature_bits
            &&& req.max_tokens == p.max_tokens
            &&& req.response_format is None
            &&& req.tools is None
            &&& req.messages@.len() == 1
            &&& req.messages@[0].role@ == "user"@
            &&& (req.messages@[0].content matches Some(MessageContent::TextWithImage(t, img))
                && t@ == p.prompt@ && img.url@ == p.image_url@ && img.detail == (
            match p.detail {
                Some(d) => d,
                None => ImageDetail::High,
            }))
            &&& req.messages@[0].tool_calls is None
            &&& req.messages@[0].tool_call_id is None
        }),
{
    if let Err(m) = validate_image_url(p.image_url.as_str()) {
        return Err(m);
    }
    if let Err(m) = validate_temperature(p.temperature_bits) {
        return Err(m);
    }
    let detail = match p.detail {
        Some(d) => d,
        None => ImageDetail::High,
    };
    let mut messages: Vec<ChatMessage> = Vec::new();
    messages.push(ChatMessage::user_with_image(p.prompt.as_str(), p.image_url.as_str(), detail));
    match build_chat_request(
        opt_str(&p.model),
        messages,
        p.temperature_bits,
        p.max_tokens,
        None,
        None,
    ) {
        Ok(req) => Ok(req),
        Err(m) => Err(m),
    }
}

/// Validate and build a search-augmented call: the tool list derives
/// from the requested mode (both when unspecified), the conversation
/// is an optional system turn and one user turn.
pub fn prepare_search(p: &SearchParams) -> (r: Result<SearchRequest, String>)
    ensures
        r is Ok <==> spec_temperature_ok(p.temperature_bits),
        r matches Err(m) ==> m@ == spec_temperature_error(),
        r matches Ok(req) ==> ({
            &&& req.model@ == spec_chosen_model_text(p.model, spec_default_model())
            &&& req.temperature_bits == p.temperature_bits
            &&& req.max_output_tokens == p.max_tokens
            &&& req.tools@ == spec_search_tools(
                match p.search_type {
                    Some(t) => t,
                    None => SearchType::Both,
                },
            )
            &&& spec_built_messages(opt_text(p.system_prompt), None, p.prompt@, req.input@)
        }),
{
    if let Err(m) = validate_temperature(p.temperature_bits) {
        return Err(m);
    }
    let search_type = match p.search_type {
        Some(t) => t,
        None => SearchType::Both,
    };
    let req = build_search_request(
        opt_str(&p.model),
        opt_str(&p.system_prompt),
        p.prompt.as_str(),
        search_type,
        p.temperature_bits,
        p.max_tokens,
    );
    proof {
        assert forall|i: int| 0 <= i < req.input@.len() implies valid_role(
            #[trigger] req.input@[i].role@,
        ) by {
            if i == req.input@.len() - 1 {
                assert(req.input@[i].role@ == "user"@);
            } else {
                assert(i == 0);
                assert(req.input@[i].role@ == "system"@);
            }
        }
    }
    Ok(req)
}

/// Validate and build an embedding call: the raw input must be
/// well-formed JSON and passes through structurally unchanged; the
/// fixed embedding model applies when none is named.
pub fn prepare_embedding(p: &EmbeddingParams) -> (r: Result<EmbeddingRequest, String>)
    ensures
        r is Ok <==> json_parse_of(p.input@) is Some,
        r matches Ok(req) ==> (req.model@ == spec_chosen_model_text(
            p.model,
            spec_default_embedding_model(),
        ) && Some(req.input) == json_parse_of(p.input@)),
        r matches Err(m) ==> spec_starts_with(m@, spec_embedding_err_prefix()),
{
    build_embedding_request(p.input.as_str(), opt_str(&p.model))
}

} // verus!
