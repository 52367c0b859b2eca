//! Conversation assembly: an ordered sequence of messages built from an
//! optional system directive, an optional serialized history, and the
//! current prompt.  The build is all-or-nothing: a malformed history or
//! an unknown role aborts it with no partial result, and a successful
//! build carries every history entry over unchanged, in order.

use vstd::prelude::*;
use vstd::string::StringExecFns;

use crate::jsonio::{
    array_of, clone_value, field_of, json_array_of, parse_json_value_array, str_of,
    value_as_array, value_as_str, value_field,
};
use crate::params::ImageDetail;
use crate::textfmt::spec_starts_with;

verus! {

/// An image reference inside a user message.
#[derive(Debug)]
pub struct ImageRef {
    /// Where the image lives; an http or https reference.
    pub url: String,
    /// How much detail the remote model should spend on it.
    pub detail: ImageDetail,
}

/// What a message carries.
#[derive(Debug)]
pub enum MessageContent {
    /// Plain text.
    Text(String),
    /// An ordered pair: a text segment followed by an image reference.
    TextWithImage(String, ImageRef),
    /// An open-shaped value carried through from a supplied history,
    /// interpreted only by the remote service.
    Raw(serde_json::Value),
}

/// A single message in a conversation.
#[derive(Debug)]
pub struct ChatMessage {
    /// One of the closed role set: system, user, assistant, tool.
    pub role: String,
    /// The payload, absent for some assistant turns.
    pub content: Option<MessageContent>,
    /// Opaque structured tool invocations carried through unexamined.
    pub tool_calls: Option<Vec<serde_json::Value>>,
    /// The id of the tool call a tool message answers.
    pub tool_call_id: Option<String>,
}

/// The closed role set.
pub open spec fn valid_role(r: Seq<char>) -> bool {
    r == "system"@ || r == "user"@ || r == "assistant"@ || r == "tool"@
}

/// `m` is a plain text message with the given role and text and
/// nothing else.
pub open spec fn spec_text_message(role: Seq<char>, text: Seq<char>, m: ChatMessage) -> bool {
    &&& m.role@ == role
    &&& m.content matches Some(MessageContent::Text(t)) && t@ == text
    &&& m.tool_calls is None
    &&& m.tool_call_id is None
}

/// Decide membership in the closed role set.
pub fn is_valid_role(role: &String) -> (r: bool)
    ensures
        r <==> valid_role(role@),
{
    let system = "system".to_owned();
    let user = "user".to_owned();
    let assistant = "assistant".to_owned();
    let tool = "tool".to_owned();
    *role == system || *role == user || *role == assistant || *role == tool
}

impl ChatMessage {
    /// Create a system message.
    pub fn system(text: &str) -> (m: Self)
        ensures
            spec_text_message("system"@, text@, m),
    {
        ChatMessage {
            role: "system".to_owned(),
            content: Some(MessageContent::Text(text.to_owned())),
            tool_calls: None,
            tool_call_id: None,
        }
    }

    /// Create a user text message.
    pub fn user(text: &str) -> (m: Self)
        ensures
            spec_text_message("user"@, text@, m),
    {
        ChatMessage {
            role: "user".to_owned(),
            content: Some(MessageContent::Text(text.to_owned())),
            tool_calls: None,
            tool_call_id: None,
        }
    }

    /// Create a user message carrying a text segment and an image
    /// reference with the given detail level, in that order.
    pub fn user_with_image(text: &str, image_url: &str, detail: ImageDetail) -> (m: Self)
        ensures
            m.role@ == "user"@,
            m.content matches Some(MessageContent::TextWithImage(t, img)) && t@ == text@
                && img.url@ == image_url@ && img.detail == detail,
            m.tool_calls is None,
            m.tool_call_id is None,
    {
        ChatMessage {
            role: "user".to_owned(),
            content: Some(
                MessageContent::TextWithImage(
                    text.to_owned(),
                    ImageRef { url: image_url.to_owned(), detail },
                ),
            ),
            tool_calls: None,
            tool_call_id: None,
        }
    }
}

/// The role text of one history entry: the string under its `role`
/// key, where both exist.
pub open spec fn spec_entry_role(v: serde_json::Value) -> Option<Seq<char>> {
    match field_of(v, "role"@) {
        Some(r) => str_of(r),
        None => None,
    }
}

/// The entry has the object shape the builder reads: a string role,
/// an array under `tool_calls` when that key is present, a string
/// under `tool_call_id` when that key is present.
pub open spec fn spec_entry_shape_ok(v: serde_json::Value) -> bool {
    &&& spec_entry_role(v) is Some
    &&& (field_of(v, "tool_calls"@) matches Some(t) ==> array_of(t) is Some)
    &&& (field_of(v, "tool_call_id"@) matches Some(t) ==> str_of(t) is Some)
}

/// The entry's role lies in the closed set.
pub open spec fn spec_entry_role_valid(v: serde_json::Value) -> bool {
    spec_entry_role(v) matches Some(r) && valid_role(r)
}

/// The entry is carried whole: readable shape, role in the closed set.
pub open spec fn spec_entry_ok(v: serde_json::Value) -> bool {
    spec_entry_shape_ok(v) && spec_entry_role_valid(v)
}

/// `m` carries the entry unchanged: the same role, the entry's content
/// value when present, its tool-call payloads when present, its
/// tool-call id when present, and nothing else.
pub open spec fn spec_carried_entry(v: serde_json::Value, m: ChatMessage) -> bool {
    &&& Some(m.role@) == spec_entry_role(v)
    &&& (match field_of(v, "content"@) {
        Some(c) => m.content matches Some(MessageContent::Raw(cv)) && cv == c,
        None => m.content is None,
    })
    &&& (match field_of(v, "tool_calls"@) {
        Some(t) => m.tool_calls matches Some(a) && Some(a@) == array_of(t),
        None => m.tool_calls is None,
    })
    &&& (match field_of(v, "tool_call_id"@) {
        Some(t) => m.tool_call_id matches Some(x) && Some(x@) == str_of(t),
        None => m.tool_call_id is None,
    })
}

/// Every entry of the sequence is carried whole.
pub open spec fn spec_entries_ok(es: Seq<serde_json::Value>) -> bool {
    forall|i: int| 0 <= i < es.len() ==> spec_entry_ok(#[trigger] es[i])
}

/// Every entry of the sequence has readable shape.
pub open spec fn spec_entries_shape_ok(es: Seq<serde_json::Value>) -> bool {
    forall|i: int| 0 <= i < es.len() ==> spec_entry_shape_ok(#[trigger] es[i])
}

/// The history text is good: it parses as a JSON array whose every
/// entry is readable and carries a role of the closed set.
pub open spec fn spec_history_ok(s: Seq<char>) -> bool {
    json_array_of(s) matches Some(es) && spec_entries_ok(es)
}

/// The prefix of every report about a history that could not be read.
pub open spec fn spec_history_err_prefix() -> Seq<char> {
    "Invalid messages JSON: "@
}

/// The report about an unknown role in a supplied history.
pub open spec fn spec_invalid_role_msg(role: Seq<char>) -> Seq<char> {
    "Invalid role '"@ + role + "' in messages - must be one of: system, user, assistant, tool"@
}

/// `e` is the invalid-role report for position `k` of the entries:
/// every earlier role is valid, the role at `k` is not, and `e` names
/// it.
pub open spec fn spec_role_err_at(es: Seq<serde_json::Value>, k: int, e: Seq<char>) -> bool {
    &&& 0 <= k < es.len()
    &&& (forall|i: int| 0 <= i < k ==> spec_entry_role_valid(#[trigger] es[i]))
    &&& (spec_entry_role(es[k]) matches Some(r) && !valid_role(r) && e == spec_invalid_role_msg(r))
}

/// What a failed build reports of the history text `s`: the fixed
/// history prefix when the text does not parse as an array or some
/// entry is unreadable; otherwise the invalid-role message naming the
/// first role outside the closed set.
pub open spec fn spec_history_err(s: Seq<char>, e: Seq<char>) -> bool {
    match json_array_of(s) {
        None => spec_starts_with(e, spec_history_err_prefix()),
        Some(es) => {
            if spec_entries_shape_ok(es) {
                exists|k: int| spec_role_err_at(es, k, e)
            } else {
                spec_starts_with(e, spec_history_err_prefix())
            }
        },
    }
}

/// A successful build of the conversation: an optional leading system
/// turn, every history entry carried unchanged in order, one final
/// user turn carrying the prompt, and every role inside the closed
/// set.
pub open spec fn spec_built_messages(
    system_prompt: Option<Seq<char>>,
    history: Option<Seq<char>>,
    prompt: Seq<char>,
    msgs: Seq<ChatMessage>,
) -> bool {
    let base: int = if system_prompt is Some {
        1int
    } else {
        0int
    };
    let entries: Seq<serde_json::Value> = match history {
        Some(h) => match json_array_of(h) {
            Some(es) => es,
            None => Seq::empty(),
        },
        None => Seq::empty(),
    };
    &&& msgs.len() == base + entries.len() + 1
    &&& (system_prompt matches Some(sp) ==> spec_text_message("system"@, sp, msgs[0]))
    &&& (forall|i: int|
        0 <= i < entries.len() ==> spec_carried_entry(entries[i], #[trigger] msgs[base + i]))
    &&& spec_text_message("user"@, prompt, msgs[msgs.len() - 1])
    &&& (forall|i: int| 0 <= i < msgs.len() ==> valid_role(#[trigger] msgs[i].role@))
}

fn history_err(detail: &str) -> (m: String)
    ensures
        spec_starts_with(m@, spec_history_err_prefix()),
{
    let mut m = "Invalid messages JSON: ".to_owned();
    m.append(detail);
    proof {
        assert(m@.subrange(0, spec_history_err_prefix().len() as int) =~= spec_history_err_prefix());
    }
    m
}

fn invalid_role_msg(role: &String) -> (m: String)
    ensures
        m@ == spec_invalid_role_msg(role@),
{
    let mut m = "Invalid role '".to_owned();
    m.append(role.as_str());
    m.append("' in messages - must be one of: system, user, assistant, tool");
    proof {
        assert(m@ =~= spec_invalid_role_msg(role@));
    }
    m
}

/// Read one history entry into a message, carrying role, content,
/// tool-call payloads and tool-call id over unchanged.  Succeeds
/// exactly on an entry of readable shape; role validity is judged by
/// the caller.
fn history_message(v: &serde_json::Value) -> (r: Result<ChatMessage, String>)
    ensures
        r is Ok <==> spec_entry_shape_ok(*v),
        r matches Ok(m) ==> spec_carried_entry(*v, m),
        r matches Err(e) ==> spec_starts_with(e@, spec_history_err_prefix()),
{
    let role = match value_field(v, "role") {
        Some(rv) => match value_as_str(rv) {
            Some(s) => s,
            None => {
                return Err(history_err("message role must be a string"));
            },
        },
        None => {
            return Err(history_err("message entry must be an object carrying a role"));
        },
    };
    let content = match value_field(v, "content") {
        Some(c) => Some(MessageContent::Raw(clone_value(c))),
        None => None,
    };
    let tool_calls = match value_field(v, "tool_calls") {
        Some(tc) => match value_as_array(tc) {
            Some(a) => Some(a),
            None => {
                return Err(history_err("tool_calls must be an array"));
            },
        },
        None => None,
    };
    let tool_call_id = match value_field(v, "tool_call_id") {
        Some(t) => match value_as_str(t) {
            Some(s) => Some(s),
            None => {
                return Err(history_err("tool_call_id must be a string"));
            },
        },
        None => None,
    };
    Ok(ChatMessage { role, content, tool_calls, tool_call_id })
}

/// Assemble the conversation: an optional system turn first, then the
/// history carried over entry by entry in order, then one user turn
/// carrying `prompt`.
///
/// The build succeeds exactly when any supplied history is good, and
/// then yields the full conversation; it fails, with no partial
/// result, exactly on a history that is not a JSON array of readable
/// entries or that holds a role outside the closed set, and the report
/// then either carries the fixed history prefix or names the first
/// offending role.
pub fn build_messages(
    system_prompt: Option<&str>,
    history_json: Option<&str>,
    prompt: &str,
) -> (r: Result<Vec<ChatMessage>, String>)
    ensures
        r is Ok <==> (history_json matches Some(h) ==> spec_history_ok(h@)),
        r matches Ok(msgs) ==> spec_built_messages(
            match system_prompt {
                Some(sp) => Some(sp@),
                None => None,
            },
            match history_json {
                Some(h) => Some(h@),
                None => None,
            },
            prompt@,
            msgs@,
        ),
        r matches Err(e) ==> (history_json matches Some(h) && spec_history_err(h@, e@)),
{
    let ghost base: int = if system_prompt is Some {
        1int
    } else {
        0int
    };
    let mut messages: Vec<ChatMessage> = Vec::new();
    if let Some(sys) = system_prompt {
        messages.push(ChatMessage::system(sys));
    }
    if let Some(json) = history_json {
        let parsed = match parse_json_value_array(json) {
            Ok(p) => p,
            Err(e) => {
                return Err(history_err(e.as_str()));
            },
        };
        let n = parsed.len();
        let mut i: usize = 0;
        while i < n
            invariant
                history_json == Some(json),
                Some(parsed@) == json_array_of(json@),
                i <= n,
                n == parsed@.len(),
                messages@.len() == base + i,
                base == if system_prompt is Some {
                    1int
                } else {
                    0int
                },
                system_prompt matches Some(sp) ==> messages@.len() >= 1 && spec_text_message(
                    "system"@,
                    sp@,
                    messages@[0],
                ),
                forall|j: int|
                    0 <= j < i ==> spec_entry_shape_ok(#[trigger] parsed@[j]) && spec_carried_entry(
                        parsed@[j],
                        messages@[base + j],
                    ),
            decreases n - i,
        {
            let m = match history_message(&parsed[i]) {
                Ok(m) => m,
                Err(e) => {
                    proof {
                        assert(!spec_entry_shape_ok(parsed@[i as int]));
                        assert(!spec_entries_shape_ok(parsed@)) by {
                            if spec_entries_shape_ok(parsed@) {
                                assert(spec_entry_shape_ok(parsed@[i as int]));
                            }
                        }
                        assert(!spec_entries_ok(parsed@)) by {
                            if spec_entries_ok(parsed@) {
                                assert(spec_entry_ok(parsed@[i as int]));
                            }
                        }
                        assert(json_array_of(json@) matches Some(es) && es == parsed@);
                    }
                    return Err(e);
                },
            };
            messages.push(m);
            i += 1;
        }
        let base_u: usize = if system_prompt.is_some() {
            1
        } else {
            0
        };
        let mut k: usize = 0;
        while k < n
            invariant
                history_json == Some(json),
                Some(parsed@) == json_array_of(json@),
                k <= n,
                n == parsed@.len(),
                base_u as int == base,
                base == if system_prompt is Some {
                    1int
                } else {
                    0int
                },
                messages@.len() == base + n,
                forall|j: int|
                    0 <= j < n ==> spec_entry_shape_ok(#[trigger] parsed@[j]) && spec_carried_entry(
                        parsed@[j],
                        messages@[base + j],
                    ),
                forall|j: int| 0 <= j < k ==> spec_entry_role_valid(#[trigger] parsed@[j]),
                forall|j: int| 0 <= j < base + k ==> valid_role(#[trigger] messages@[j].role@),
            decreases n - k,
        {
            if !is_valid_role(&messages[base_u + k].role) {
                let m = invalid_role_msg(&messages[base_u + k].role);
                proof {
                    assert(spec_carried_entry(parsed@[k as int], messages@[base + k]));
                    assert(!spec_entry_role_valid(parsed@[k as int]));
                    assert(!spec_entries_ok(parsed@)) by {
                        if spec_entries_ok(parsed@) {
                            assert(spec_entry_ok(parsed@[k as int]));
                        }
                    }
                    assert(spec_entries_shape_ok(parsed@)) by {}
                    assert(spec_role_err_at(parsed@, k as int, m@));
                    assert(exists|k2: int| spec_role_err_at(parsed@, k2, m@));
                    assert(json_array_of(json@) matches Some(es) && es == parsed@);
                }
                return Err(m);
            }
            proof {
                assert(spec_carried_entry(parsed@[k as int], messages@[base + k]));
                assert(spec_entry_role_valid(parsed@[k as int]));
            }
            k += 1;
        }
        proof {
            assert forall|j: int| 0 <= j < parsed@.len() implies spec_entry_ok(
                #[trigger] parsed@[j],
            ) by {}
            assert(spec_entries_ok(parsed@));
            assert(json_array_of(json@) matches Some(es) && es == parsed@);
            assert(spec_history_ok(json@));
        }
    }
    messages.push(ChatMessage::user(prompt));
    proof {
        assert forall|i: int| 0 <= i < messages@.len() implies valid_role(
            #[trigger] messages@[i].role@,
        ) by {
            if i == messages@.len() - 1 {
                assert(messages@[i].role@ == "user"@);
            }
        }
    }
    Ok(messages)
}

} // verus!
