//! The data the relay works on: inbound channel messages, role-tagged prompt
//! entries, completion requests and their candidate replies, and outbound
//! messages, together with the mathematical views the contracts speak of.

use vstd::prelude::*;

verus! {

/// The role tag of a prompt entry, per completion-service convention.
#[derive(Clone, Copy, Debug, PartialEq, Eq, Structural)]
pub enum Role {
    System,
    User,
    Assistant,
}

/// An inbound (or fetched) channel message, reduced to the attributes the
/// relay reads: whether the author is an automated agent, the text content,
/// and the channel it was posted in.
#[derive(Debug)]
pub struct ChatMessage {
    pub author_is_bot: bool,
    pub content: String,
    pub channel_id: u64,
}

/// The mathematical view of a [`ChatMessage`].
pub ghost struct MessageView {
    pub author_is_bot: bool,
    pub content: Seq<char>,
    pub channel_id: u64,
}

impl DeepView for ChatMessage {
    type V = MessageView;

    open spec fn deep_view(&self) -> MessageView {
        MessageView {
            author_is_bot: self.author_is_bot,
            content: self.content@,
            channel_id: self.channel_id,
        }
    }
}

/// One role-tagged entry of a prompt.
#[derive(Debug)]
pub struct PromptEntry {
    pub role: Role,
    pub content: String,
}

/// The mathematical view of a [`PromptEntry`].
pub ghost struct EntryView {
    pub role: Role,
    pub content: Seq<char>,
}

impl DeepView for PromptEntry {
    type V = EntryView;

    open spec fn deep_view(&self) -> EntryView {
        EntryView { role: self.role, content: self.content@ }
    }
}

/// A completion request: the model to ask and the ordered prompt entries.
#[derive(Debug)]
pub struct CompletionRequest {
    pub model: String,
    pub entries: Vec<PromptEntry>,
}

/// One candidate reply of a completion response; the service may omit the
/// text content.
#[derive(Debug)]
pub struct Choice {
    pub content: Option<String>,
}

/// The mathematical view of a [`Choice`].
pub ghost struct ChoiceView {
    pub content: Option<Seq<char>>,
}

impl DeepView for Choice {
    type V = ChoiceView;

    open spec fn deep_view(&self) -> ChoiceView {
        ChoiceView { content: self.content.deep_view() }
    }
}

/// One outbound message: a text to post in a channel.
#[derive(Debug)]
pub struct OutboundMessage {
    pub channel_id: u64,
    pub content: String,
}

/// The mathematical view of an [`OutboundMessage`].
pub ghost struct OutboundView {
    pub channel_id: u64,
    pub content: Seq<char>,
}

impl DeepView for OutboundMessage {
    type V = OutboundView;

    open spec fn deep_view(&self) -> OutboundView {
        OutboundView { channel_id: self.channel_id, content: self.content@ }
    }
}

/// A request to fetch the most recent messages of a channel.
#[derive(Clone, Copy, Debug, PartialEq, Eq, Structural)]
pub struct FetchRequest {
    pub channel_id: u64,
    pub limit: u64,
}

} // verus!
