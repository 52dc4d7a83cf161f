//! The two decisions of the bot: what to register once the connection is
//! ready, and what to answer to an interaction.

use vstd::prelude::*;
use crate::command::{
    content_name, echo_command, echo_registration, CommandOptionType, Registration, CONTENT,
};
use crate::config::Config;
use crate::fatal::Fatal;
use crate::interaction::{
    has_named, is_first_named, lemma_first_named_iff, lemma_first_named_unique, param_value,
    unwrap_appcmd_param, CommandDataView, Interaction, InteractionView, OptionValue,
    OptionValueView,
};
use crate::response::{
    echo_reply, InteractionResponse, InteractionResponseType, InteractionResponseView,
};

verus! {

/// The handler of the connection's events. It holds the guild that the
/// configuration names, and nothing else.
#[derive(Debug, Clone, Copy, PartialEq, Eq, Structural)]
pub struct Handler {
    pub guild_id: u64,
}

/// The text that a resolved value contributes to the reply: the string
/// itself, and the empty text for a value of any other kind.
pub open spec fn content_text(value: OptionValueView) -> Seq<char> {
    match value {
        OptionValueView::String(s) => s,
        _ => Seq::empty(),
    }
}

/// What the bot does with an interaction: `Ok(None)` is silence, `Ok(Some)`
/// the one reply to send, `Err` the fatal condition.
pub open spec fn reply_to(interaction: InteractionView) -> Result<
    Option<InteractionResponseView>,
    Fatal,
> {
    match interaction {
        InteractionView::ApplicationCommand(data) => match param_value(data, content_name()) {
            Some(value) => Ok(Some(echo_reply(content_text(value)))),
            None => Err(Fatal::MissingContent),
        },
        _ => Ok(None),
    }
}

/// The model of the outcome of handling an interaction.
pub open spec fn reply_view(outcome: Result<Option<InteractionResponse>, Fatal>) -> Result<
    Option<InteractionResponseView>,
    Fatal,
> {
    match outcome {
        Ok(Some(response)) => Ok(Some(response@)),
        Ok(None) => Ok(None),
        Err(e) => Err(e),
    }
}

/// Narrows a resolved value to its text: a string is kept as it is, a value
/// of any other kind gives the empty string.
pub fn content_of(value: OptionValue) -> (r: String)
    ensures
        r@ == content_text(value@),
{
    match value {
        OptionValue::String(s) => s,
        _ => String::new(),
    }
}

impl Handler {
    /// The handler for the configuration `config`.
    pub fn new(config: &Config) -> (r: Handler)
        ensures
            r.guild_id == config.guild_id,
    {
        Handler { guild_id: config.guild_id }
    }

    /// Decides the answer to one inbound interaction. A command invocation
    /// is answered with an ephemeral message that repeats its `content`;
    /// without a resolved `content` it is fatal. Interactions of every
    /// other kind are passed over in silence.
    pub fn interaction_create(&self, interaction: Interaction) -> (r: Result<
        Option<InteractionResponse>,
        Fatal,
    >)
        ensures
            reply_view(r) == reply_to(interaction@),
    {
        match interaction {
            Interaction::ApplicationCommand(data) => {
                match unwrap_appcmd_param(&data, CONTENT.to_string()) {
                    Some(value) => Ok(Some(InteractionResponse::echo(content_of(value)))),
                    None => Err(Fatal::MissingContent),
                }
            },
            _ => Ok(None),
        }
    }

    /// Decides what to register once the connection is ready: the command
    /// set of the configured guild, which holds `echo` alone.
    pub fn ready(&self) -> (r: Registration)
        ensures
            r@ == echo_registration(self.guild_id),
    {
        let mut commands = Vec::new();
        commands.push(echo_command());
        let r = Registration { guild_id: self.guild_id, commands };
        assert(r@.commands =~= echo_registration(self.guild_id).commands);
        r
    }
}

/// Round trip: where the first option named `content` carries the string
/// `s`, the invocation is answered with an immediate message, visible only to
/// the invoking user, whose text is exactly `s`. This holds of every `s`, the
/// empty string included.
pub proof fn lemma_echo_round_trip(data: CommandDataView, i: int, s: Seq<char>)
    requires
        is_first_named(data.options, content_name(), i),
        data.options[i].resolved == Some(OptionValueView::String(s)),
    ensures
        reply_to(InteractionView::ApplicationCommand(data)) matches Ok(Some(reply))
            && reply.kind == InteractionResponseType::ChannelMessageWithSource && reply.ephemeral
            && reply.content == s,
{
    lemma_first_named_unique(data.options, content_name(), i);
}

/// An invocation without any option named `content` gets no reply: it is the
/// fatal condition `MissingContent`.
pub proof fn lemma_missing_content_is_fatal(data: CommandDataView)
    requires
        !has_named(data.options, content_name()),
    ensures
        reply_to(InteractionView::ApplicationCommand(data)) matches Err(condition)
            && condition == Fatal::MissingContent,
{
    lemma_first_named_iff(data.options, content_name());
}

/// An invocation is fatal exactly when no option is named `content`, or the
/// first option of that name carries no resolved value.
pub proof fn lemma_fatal_iff(data: CommandDataView)
    ensures
        reply_to(InteractionView::ApplicationCommand(data)) is Err <==> {
            ||| !has_named(data.options, content_name())
            ||| exists|i: int|
                is_first_named(data.options, content_name(), i)
                    && data.options[i].resolved is None
        },
{
    lemma_first_named_iff(data.options, content_name());
    if exists|i: int|
        is_first_named(data.options, content_name(), i) && data.options[i].resolved is None {
        let i = choose|i: int|
            is_first_named(data.options, content_name(), i) && data.options[i].resolved is None;
        lemma_first_named_unique(data.options, content_name(), i);
    }
}

/// Where the first option named `content` carries a resolved value that is
/// not a string, the invocation is still answered, and the text of the reply
/// is empty.
pub proof fn lemma_mistyped_content_is_empty(data: CommandDataView, i: int)
    requires
        is_first_named(data.options, content_name(), i),
        data.options[i].resolved is Some,
        !(data.options[i].resolved->0 is String),
    ensures
        reply_to(InteractionView::ApplicationCommand(data)) matches Ok(Some(reply))
            && reply.kind == InteractionResponseType::ChannelMessageWithSource && reply.ephemeral
            && reply.content == Seq::<char>::empty(),
{
    lemma_first_named_unique(data.options, content_name(), i);
}

/// A command invocation is never passed over in silence: it is answered
/// with exactly one reply, or it is fatal. Every other kind of interaction
/// is passed over.
pub proof fn lemma_one_reply_per_invocation(interaction: InteractionView)
    ensures
        interaction is ApplicationCommand ==> !(reply_to(interaction) matches Ok(None)),
        !(interaction is ApplicationCommand) ==> reply_to(interaction) matches Ok(None),
{
}

/// The registration declares exactly one command, named `echo`, with
/// exactly one parameter: `content`, a string, required.
pub proof fn lemma_registration_is_echo_alone(guild_id: u64)
    ensures
        echo_registration(guild_id).guild_id == guild_id,
        echo_registration(guild_id).commands.len() == 1,
        echo_registration(guild_id).commands[0].name == "echo"@,
        echo_registration(guild_id).commands[0].options.len() == 1,
        echo_registration(guild_id).commands[0].options[0].name == "content"@,
        echo_registration(guild_id).commands[0].options[0].kind == CommandOptionType::String,
        echo_registration(guild_id).commands[0].options[0].required,
{
}

} // verus!
