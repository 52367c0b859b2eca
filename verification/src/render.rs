//! Deterministic rendering of completed responses into display text.
//! Every rendering is pinned, character for character, to a spec-level
//! text; only the pretty-printed form of opaque tool-call payloads
//! comes from the trusted boundary.

use vstd::prelude::*;
use vstd::string::StringExecFns;

use crate::jsonio::pretty_json_list;
use crate::response::{
    ChatChoice, ChatResponse, EmbeddingData, EmbeddingResponse, EmbeddingUsage, ModelInfo,
    ModelsResponse, Usage,
};
use crate::textfmt::{join_with, lemma_join_push, spec_dec, u64_string};

verus! {

/// The views of a sequence of strings.
pub open spec fn strs_view(s: Seq<String>) -> Seq<Seq<char>> {
    s.map_values(|x: String| x@)
}

/// The view of an optional string.
pub open spec fn opt_view(o: Option<String>) -> Option<Seq<char>> {
    match o {
        Some(s) => Some(s@),
        None => None,
    }
}

/// Join the parts in order with `sep` between neighbours.
pub fn join_strings(parts: &Vec<String>, sep: &str) -> (r: String)
    ensures
        r@ == join_with(strs_view(parts@), sep@),
{
    let mut r = String::new();
    let mut i: usize = 0;
    while i < parts.len()
        invariant
            i <= parts@.len(),
            r@ == join_with(strs_view(parts@.subrange(0, i as int)), sep@),
        decreases parts@.len() - i,
    {
        if i > 0 {
            r.append(sep);
        }
        r.append(parts[i].as_str());
        proof {
            let prev = strs_view(parts@.subrange(0, i as int));
            lemma_join_push(prev, sep@, parts@[i as int]@);
            assert(strs_view(parts@.subrange(0, i as int + 1)) =~= prev.push(parts@[i as int]@));
            assert(r@ =~= join_with(strs_view(parts@.subrange(0, i as int + 1)), sep@));
        }
        i += 1;
    }
    proof {
        assert(parts@.subrange(0, parts@.len() as int) =~= parts@);
    }
    r
}

/// What the rendering of one chat choice reads.
pub ghost struct ChoiceView {
    pub role: Seq<char>,
    pub content: Option<Seq<char>>,
    pub tool_calls_text: Option<Seq<char>>,
    pub finish_reason: Option<Seq<char>>,
}

/// One choice, reduced to renderable plain text: any tool calls stand
/// already pretty-printed.
pub struct RenderedChoice {
    pub role: String,
    pub content: Option<String>,
    pub tool_calls_text: Option<String>,
    pub finish_reason: Option<String>,
}

/// The view of a renderable choice.
pub open spec fn rc_view(c: RenderedChoice) -> ChoiceView {
    ChoiceView {
        role: c.role@,
        content: opt_view(c.content),
        tool_calls_text: opt_view(c.tool_calls_text),
        finish_reason: opt_view(c.finish_reason),
    }
}

/// The views of a sequence of renderable choices.
pub open spec fn rc_views(cs: Seq<RenderedChoice>) -> Seq<ChoiceView> {
    cs.map_values(|c: RenderedChoice| rc_view(c))
}

/// The text of one choice: a role prefix for any role but assistant,
/// the content when present, the pretty-printed tool calls when
/// present, and the finish reason when present.
pub open spec fn spec_render_choice(c: ChoiceView) -> Seq<char> {
    (if c.role == "assistant"@ {
        Seq::<char>::empty()
    } else {
        "["@ + c.role + "] "@
    }) + (match c.content {
        Some(t) => t,
        None => Seq::<char>::empty(),
    }) + (match c.tool_calls_text {
        Some(t) => "\nTool calls: "@ + t,
        None => Seq::<char>::empty(),
    }) + (match c.finish_reason {
        Some(f) => "\n[finish_reason: "@ + f + "]"@,
        None => Seq::<char>::empty(),
    })
}

/// The trailing token accounting of a chat rendering.
pub open spec fn spec_usage_suffix(u: Option<Usage>) -> Seq<char> {
    match u {
        Some(u) => "\n[tokens: "@ + spec_dec(u.prompt_tokens as nat) + " prompt + "@ + spec_dec(
            u.completion_tokens as nat,
        ) + " completion = "@ + spec_dec(u.total_tokens as nat) + " total]"@,
        None => Seq::<char>::empty(),
    }
}

/// The whole chat rendering: the choices joined with newlines, then
/// the token accounting.  Zero choices and absent usage render to the
/// empty text.
pub open spec fn spec_chat_text(choices: Seq<ChoiceView>, usage: Option<Usage>) -> Seq<char> {
    join_with(choices.map_values(|c: ChoiceView| spec_render_choice(c)), "\n"@)
        + spec_usage_suffix(usage)
}

fn render_choice_text(c: &RenderedChoice) -> (s: String)
    ensures
        s@ == spec_render_choice(rc_view(*c)),
{
    let mut s = String::new();
    let assistant = "assistant".to_owned();
    if !(c.role == assistant) {
        s.append("[");
        s.append(c.role.as_str());
        s.append("] ");
    }
    if let Some(t) = &c.content {
        s.append(t.as_str());
    }
    if let Some(t) = &c.tool_calls_text {
        s.append("\nTool calls: ");
        s.append(t.as_str());
    }
    if let Some(f) = &c.finish_reason {
        s.append("\n[finish_reason: ");
        s.append(f.as_str());
        s.append("]");
    }
    proof {
        assert(s@ =~= spec_render_choice(rc_view(*c)));
    }
    s
}

fn usage_suffix(usage: &Option<Usage>) -> (s: String)
    ensures
        s@ == spec_usage_suffix(*usage),
{
    match usage {
        None => String::new(),
        Some(u) => {
            let mut s = "\n[tokens: ".to_owned();
            s.append(u64_string(u.prompt_tokens as u64).as_str());
            s.append(" prompt + ");
            s.append(u64_string(u.completion_tokens as u64).as_str());
            s.append(" completion = ");
            s.append(u64_string(u.total_tokens as u64).as_str());
            s.append(" total]");
            proof {
                assert(s@ =~= spec_usage_suffix(*usage));
            }
            s
        },
    }
}

/// Render already-plain choices and usage into the final chat text.
pub fn render_chat(choices: &Vec<RenderedChoice>, usage: &Option<Usage>) -> (r: String)
    ensures
        r@ == spec_chat_text(rc_views(choices@), *usage),
{
    let mut texts: Vec<String> = Vec::new();
    let mut i: usize = 0;
    while i < choices.len()
        invariant
            i <= choices@.len(),
            texts@.len() == i,
            forall|j: int|
                0 <= j < i ==> (#[trigger] texts@[j])@ == spec_render_choice(
                    rc_view(choices@[j]),
                ),
        decreases choices@.len() - i,
    {
        texts.push(render_choice_text(&choices[i]));
        i += 1;
    }
    let mut r = join_strings(&texts, "\n");
    let suffix = usage_suffix(usage);
    r.append(suffix.as_str());
    proof {
        assert(strs_view(texts@) =~= rc_views(choices@).map_values(
            |c: ChoiceView| spec_render_choice(c),
        ));
    }
    r
}

/// The rendering of `v` reads exactly what `c` holds: same role, same
/// content, same finish reason, and a tool-call text exactly when `c`
/// carries tool calls.
pub open spec fn spec_choice_rendering_matches(v: ChoiceView, c: ChatChoice) -> bool {
    &&& v.role == c.message.role@
    &&& v.content == opt_view(c.message.content)
    &&& (v.tool_calls_text is Some <==> c.message.tool_calls is Some)
    &&& v.finish_reason == opt_view(c.finish_reason)
}

/// The view of a choice without tool calls.
pub open spec fn spec_plain_view(c: ChatChoice) -> ChoiceView {
    ChoiceView {
        role: c.message.role@,
        content: opt_view(c.message.content),
        tool_calls_text: None,
        finish_reason: opt_view(c.finish_reason),
    }
}

/// The views of choices without tool calls.
pub open spec fn spec_plain_views(cs: Seq<ChatChoice>) -> Seq<ChoiceView> {
    cs.map_values(|c: ChatChoice| spec_plain_view(c))
}

/// Render a completed chat response.  The result is the spec-level
/// chat text of views that read the response exactly; when no choice
/// carries tool calls the text is a function of the response alone.
pub fn format_chat_response(resp: &ChatResponse) -> (r: String)
    ensures
        exists|vs: Seq<ChoiceView>|
            vs.len() == resp.choices@.len() && (forall|i: int|
                0 <= i < vs.len() ==> spec_choice_rendering_matches(
                    #[trigger] vs[i],
                    resp.choices@[i],
                )) && r@ == spec_chat_text(vs, resp.usage),
        (forall|i: int|
            0 <= i < resp.choices@.len() ==> (#[trigger] resp.choices@[i]).message.tool_calls
                is None) ==> r@ == spec_chat_text(spec_plain_views(resp.choices@), resp.usage),
{
    let mut rendered: Vec<RenderedChoice> = Vec::new();
    let mut i: usize = 0;
    while i < resp.choices.len()
        invariant
            i <= resp.choices@.len(),
            rendered@.len() == i,
            forall|j: int|
                0 <= j < i ==> spec_choice_rendering_matches(
                    rc_view(#[trigger] rendered@[j]),
                    resp.choices@[j],
                ),
            forall|j: int|
                0 <= j < i ==> (resp.choices@[j].message.tool_calls is None ==> rc_view(
                    #[trigger] rendered@[j],
                ) == spec_plain_view(resp.choices@[j])),
        decreases resp.choices@.len() - i,
    {
        let c = &resp.choices[i];
        let tool_calls_text = match &c.message.tool_calls {
            Some(tc) => Some(pretty_json_list(tc)),
            None => None,
        };
        let content = match &c.message.content {
            Some(s) => Some(s.clone()),
            None => None,
        };
        let finish_reason = match &c.finish_reason {
            Some(s) => Some(s.clone()),
            None => None,
        };
        rendered.push(
            RenderedChoice { role: c.message.role.clone(), content, tool_calls_text, finish_reason },
        );
        i += 1;
    }
    let r = render_chat(&rendered, &resp.usage);
    proof {
        let vs = rc_views(rendered@);
        assert(vs.len() == resp.choices@.len());
        assert(forall|k: int|
            0 <= k < vs.len() ==> spec_choice_rendering_matches(
                #[trigger] vs[k],
                resp.choices@[k],
            ));
        assert(r@ == spec_chat_text(vs, resp.usage));
        if forall|k: int|
            0 <= k < resp.choices@.len() ==> (#[trigger] resp.choices@[k]).message.tool_calls
                is None {
            assert(vs =~= spec_plain_views(resp.choices@));
        }
    }
    r
}

/// The text of one embedding entry: its index, its dimension, and the
/// preview components, always followed by the ellipsis marker.
pub open spec fn spec_embed_entry_text(e: EmbeddingData) -> Seq<char> {
    "["@ + spec_dec(e.index as nat) + "] dim="@ + spec_dec(e.dim as nat) + " ["@ + join_with(
        strs_view(e.preview@),
        ", "@,
    ) + ", ...]"@
}

/// The trailing token accounting of an embedding rendering.
pub open spec fn spec_embed_usage_suffix(u: Option<EmbeddingUsage>) -> Seq<char> {
    match u {
        Some(u) => "\n[tokens: "@ + spec_dec(u.prompt_tokens as nat) + " prompt, "@ + spec_dec(
            u.total_tokens as nat,
        ) + " total]"@,
        None => Seq::<char>::empty(),
    }
}

/// The whole embedding rendering: entries joined with newlines, then
/// the token accounting.
pub open spec fn spec_embedding_text(
    data: Seq<EmbeddingData>,
    usage: Option<EmbeddingUsage>,
) -> Seq<char> {
    join_with(data.map_values(|e: EmbeddingData| spec_embed_entry_text(e)), "\n"@)
        + spec_embed_usage_suffix(usage)
}

fn embed_entry_text(e: &EmbeddingData) -> (s: String)
    ensures
        s@ == spec_embed_entry_text(*e),
{
    let mut s = "[".to_owned();
    s.append(u64_string(e.index as u64).as_str());
    s.append("] dim=");
    s.append(u64_string(e.dim as u64).as_str());
    s.append(" [");
    s.append(join_strings(&e.preview, ", ").as_str());
    s.append(", ...]");
    proof {
        assert(s@ =~= spec_embed_entry_text(*e));
    }
    s
}

/// Render a completed embedding response.
pub fn render_embedding_response(resp: &EmbeddingResponse) -> (r: String)
    ensures
        r@ == spec_embedding_text(resp.data@, resp.usage),
{
    let mut texts: Vec<String> = Vec::new();
    let mut i: usize = 0;
    while i < resp.data.len()
        invariant
            i <= resp.data@.len(),
            texts@.len() == i,
            forall|j: int|
                0 <= j < i ==> (#[trigger] texts@[j])@ == spec_embed_entry_text(resp.data@[j]),
        decreases resp.data@.len() - i,
    {
        texts.push(embed_entry_text(&resp.data[i]));
        i += 1;
    }
    let mut r = join_strings(&texts, "\n");
    let suffix = match &resp.usage {
        None => String::new(),
        Some(u) => {
            let mut s = "\n[tokens: ".to_owned();
            s.append(u64_string(u.prompt_tokens as u64).as_str());
            s.append(" prompt, ");
            s.append(u64_string(u.total_tokens as u64).as_str());
            s.append(" total]");
            s
        },
    };
    r.append(suffix.as_str());
    proof {
        assert(suffix@ == spec_embed_usage_suffix(resp.usage));
        assert(strs_view(texts@) =~= resp.data@.map_values(
            |e: EmbeddingData| spec_embed_entry_text(e),
        ));
    }
    r
}

/// The line the model listing renders for one model: its id, then its
/// owner, with `xai` standing in when the listing names none.
pub open spec fn spec_model_line(m: ModelInfo) -> Seq<char> {
    "- "@ + m.id@ + " ("@ + (match m.owned_by {
        Some(o) => o@,
        None => "xai"@,
    }) + ")"@
}

/// The whole model listing: one line per model, joined with newlines.
pub open spec fn spec_model_list(ms: Seq<ModelInfo>) -> Seq<char> {
    join_with(ms.map_values(|m: ModelInfo| spec_model_line(m)), "\n"@)
}

fn model_line(m: &ModelInfo) -> (s: String)
    ensures
        s@ == spec_model_line(*m),
{
    let mut s = "- ".to_owned();
    s.append(m.id.as_str());
    s.append(" (");
    match &m.owned_by {
        Some(o) => s.append(o.as_str()),
        None => s.append("xai"),
    }
    s.append(")");
    proof {
        assert(s@ =~= spec_model_line(*m));
    }
    s
}

/// Render the model listing.
pub fn render_model_list(resp: &ModelsResponse) -> (r: String)
    ensures
        r@ == spec_model_list(resp.data@),
{
    let mut texts: Vec<String> = Vec::new();
    let mut i: usize = 0;
    while i < resp.data.len()
        invariant
            i <= resp.data@.len(),
            texts@.len() == i,
            forall|j: int|
                0 <= j < i ==> (#[trigger] texts@[j])@ == spec_model_line(resp.data@[j]),
        decreases resp.data@.len() - i,
    {
        texts.push(model_line(&resp.data[i]));
        i += 1;
    }
    let r = join_strings(&texts, "\n");
    proof {
        assert(strs_view(texts@) =~= resp.data@.map_values(|m: ModelInfo| spec_model_line(m)));
    }
    r
}

} // verus!
