//! Prompt construction: the fixed persona system entry, the role mapping for
//! history authors, and the assembly of a history window into a completion
//! request.

use vstd::prelude::*;
use vstd::string::*;

use crate::model::{ChatMessage, CompletionRequest, EntryView, MessageView, PromptEntry, Role};

verus! {

/// The fixed persona instruction, sent as the one system entry of every
/// prompt. It is configuration, not generated text.
pub open spec fn persona_text() -> Seq<char> {
    "あなたはマメゾンボヌールの使用人です。「でやんす」や「やんす」が語尾に付くような話し方をしてください。"@
}

/// The identifier of the completion model every request targets.
pub open spec fn model_id() -> Seq<char> {
    "gpt-3.5-turbo"@
}

/// The system entry that opens every prompt.
pub open spec fn system_entry() -> EntryView {
    EntryView { role: Role::System, content: persona_text() }
}

/// The role a history author maps to: automated agents speak as the
/// assistant, everyone else as the user.
pub open spec fn role_of(author_is_bot: bool) -> Role {
    if author_is_bot {
        Role::Assistant
    } else {
        Role::User
    }
}

/// The prompt entry a history message maps to.
pub open spec fn entry_of(m: MessageView) -> EntryView {
    EntryView { role: role_of(m.author_is_bot), content: m.content }
}

/// The prompt built from a history window: the persona system entry first,
/// then one entry per history message, in the window's order.
pub open spec fn prompt_of(history: Seq<MessageView>) -> Seq<EntryView> {
    seq![system_entry()] + history.map_values(|m: MessageView| entry_of(m))
}

/// The persona instruction as an owned string.
pub fn persona_instruction() -> (s: String)
    ensures
        s@ == persona_text(),
{
    String::from_str(
        "あなたはマメゾンボヌールの使用人です。「でやんす」や「やんす」が語尾に付くような話し方をしてください。",
    )
}

/// Maps an author's automated-agent flag to the role their messages carry in
/// the prompt.
pub fn role_for(author_is_bot: bool) -> (r: Role)
    ensures
        r == role_of(author_is_bot),
{
    if author_is_bot {
        Role::Assistant
    } else {
        Role::User
    }
}

/// Builds the prompt entry for one history message.
pub fn prompt_entry(message: &ChatMessage) -> (e: PromptEntry)
    ensures
        e.deep_view() == entry_of(message.deep_view()),
{
    PromptEntry { role: role_for(message.author_is_bot), content: message.content.clone() }
}

/// Builds the full prompt for a history window: the persona system entry
/// followed by the window's messages, mapped in order.
pub fn build_prompt(history: &Vec<ChatMessage>) -> (prompt: Vec<PromptEntry>)
    ensures
        prompt.deep_view() == prompt_of(history.deep_view()),
        prompt.len() == history.len() + 1,
{
    let mut prompt: Vec<PromptEntry> = Vec::new();
    prompt.push(PromptEntry { role: Role::System, content: persona_instruction() });
    let mut i: usize = 0;
    while i < history.len()
        invariant
            i <= history.len(),
            prompt.deep_view().len() == i + 1,
            prompt.deep_view()[0] == system_entry(),
            forall|j: int|
                0 <= j < i ==> prompt.deep_view()[j + 1] == entry_of(
                    history.deep_view()[j],
                ),
        decreases history.len() - i,
    {
        prompt.push(prompt_entry(&history[i]));
        i = i + 1;
    }
    proof {
        assert(prompt.deep_view() =~= prompt_of(history.deep_view()));
    }
    prompt
}

/// Builds the completion request for a history window: the fixed model
/// identifier and the prompt, with no further parameters.
pub fn build_request(history: &Vec<ChatMessage>) -> (r: CompletionRequest)
    ensures
        r.model@ == model_id(),
        r.entries.deep_view() == prompt_of(history.deep_view()),
        r.entries.len() == history.len() + 1,
{
    CompletionRequest { model: String::from_str("gpt-3.5-turbo"), entries: build_prompt(history) }
}

/// The prompt's first entry is always the fixed persona system entry,
/// whatever the history window holds and however long it is.
pub proof fn lemma_prompt_starts_with_persona(history: Seq<MessageView>)
    ensures
        prompt_of(history).len() == history.len() + 1,
        prompt_of(history)[0] == system_entry(),
        prompt_of(history)[0].role == Role::System,
        prompt_of(history)[0].content == persona_text(),
{
}

/// Exactly one system entry is present in every prompt, and it comes first:
/// every later entry carries the user or the assistant role.
pub proof fn lemma_exactly_one_system_entry(history: Seq<MessageView>)
    ensures
        prompt_of(history)[0].role == Role::System,
        forall|i: int|
            1 <= i < prompt_of(history).len() ==> (#[trigger] prompt_of(history)[i]).role
                != Role::System,
{
    assert forall|i: int| 1 <= i < prompt_of(history).len() implies (#[trigger] prompt_of(
        history,
    )[i]).role != Role::System by {
        assert(prompt_of(history)[i] == entry_of(history[i - 1]));
    }
}

/// A history window of length `n` yields a prompt of exactly `n + 1`
/// entries, and entry `i + 1` of the prompt corresponds to history item `i`:
/// no entry is dropped, added or reordered.
pub proof fn lemma_prompt_preserves_history_order(history: Seq<MessageView>)
    ensures
        prompt_of(history).len() == history.len() + 1,
        forall|i: int|
            0 <= i < history.len() ==> #[trigger] prompt_of(history)[i + 1] == entry_of(
                history[i],
            ),
{
}

/// The role of a prompt entry is a pure function of the author's
/// automated-agent flag — automated authors map to the assistant role, all
/// others to the user role — regardless of the text content, empty content
/// included.
pub proof fn lemma_role_is_function_of_author_flag(a: MessageView, b: MessageView)
    requires
        a.author_is_bot == b.author_is_bot,
    ensures
        entry_of(a).role == entry_of(b).role,
        entry_of(a).role == role_of(a.author_is_bot),
        role_of(true) == Role::Assistant,
        role_of(false) == Role::User,
{
}

/// Prompt construction is deterministic: two invocations over identical
/// history windows build identical prompts.
pub proof fn lemma_prompt_construction_deterministic(
    h1: Seq<MessageView>,
    h2: Seq<MessageView>,
    p1: Seq<EntryView>,
    p2: Seq<EntryView>,
)
    requires
        h1 == h2,
        p1 == prompt_of(h1),
        p2 == prompt_of(h2),
    ensures
        p1 == p2,
{
}

} // verus!
