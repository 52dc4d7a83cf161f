//! Outbound interaction responses.

use vstd::prelude::*;

verus! {

/// The kinds of response that the platform accepts for an interaction.
#[derive(Debug, Clone, Copy, PartialEq, Eq, Structural)]
pub enum InteractionResponseType {
    Pong,
    ChannelMessageWithSource,
    DeferredChannelMessageWithSource,
    DeferredUpdateMessage,
    UpdateMessage,
    Autocomplete,
    Modal,
}

/// A response to one interaction: its kind, whether only the invoking user
/// sees it, and its text.
#[derive(Debug, PartialEq, Eq)]
pub struct InteractionResponse {
    pub kind: InteractionResponseType,
    pub ephemeral: bool,
    pub content: String,
}

/// Mathematical model of an [`InteractionResponse`].
pub struct InteractionResponseView {
    pub kind: InteractionResponseType,
    pub ephemeral: bool,
    pub content: Seq<char>,
}

impl View for InteractionResponse {
    type V = InteractionResponseView;

    open spec fn view(&self) -> InteractionResponseView {
        InteractionResponseView {
            kind: self.kind,
            ephemeral: self.ephemeral,
            content: self.content@,
        }
    }
}

/// The reply that echoes `content`: an immediate message, visible only to
/// the invoking user, whose text is `content`.
pub open spec fn echo_reply(content: Seq<char>) -> InteractionResponseView {
    InteractionResponseView {
        kind: InteractionResponseType::ChannelMessageWithSource,
        ephemeral: true,
        content,
    }
}

impl InteractionResponse {
    /// Builds the reply that echoes `content`.
    pub fn echo(content: String) -> (r: InteractionResponse)
        ensures
            r@ == echo_reply(content@),
    {
        InteractionResponse {
            kind: InteractionResponseType::ChannelMessageWithSource,
            ephemeral: true,
            content,
        }
    }
}

} // verus!
