//! Process configuration: the credential and the guild in which the command
//! is registered.

use vstd::prelude::*;
use crate::decimal::{decimal_value, is_decimal_u64, parse_u64, unsigned_part};
use crate::fatal::Fatal;

verus! {

/// The values that the bot runs with. They are read once, before anything
/// else is done, and never change.
#[derive(Debug, PartialEq, Eq)]
pub struct Config {
    /// The credential; the bot never looks inside it.
    pub token: String,
    /// The guild in which the command is registered.
    pub guild_id: u64,
}

/// Mathematical model of a [`Config`].
pub struct ConfigView {
    pub token: Seq<char>,
    pub guild_id: u64,
}

impl View for Config {
    type V = ConfigView;

    open spec fn view(&self) -> ConfigView {
        ConfigView { token: self.token@, guild_id: self.guild_id }
    }
}

/// The guild that the text `text` names, or the reason why it names none.
pub open spec fn guild_id_of(text: Seq<char>) -> Result<u64, Fatal> {
    if is_decimal_u64(text) {
        Ok(decimal_value(unsigned_part(text)) as u64)
    } else {
        Err(Fatal::InvalidGuildId)
    }
}

/// The configuration that the two variables give, each `None` where the
/// variable is not set. The credential is looked at first.
pub open spec fn config_of(token: Option<Seq<char>>, guild_id: Option<Seq<char>>) -> Result<
    ConfigView,
    Fatal,
> {
    match (token, guild_id) {
        (None, _) => Err(Fatal::MissingToken),
        (Some(_), None) => Err(Fatal::MissingGuildId),
        (Some(t), Some(g)) => match guild_id_of(g) {
            Ok(id) => Ok(ConfigView { token: t, guild_id: id }),
            Err(e) => Err(e),
        },
    }
}

/// The model of a variable that may be unset.
pub open spec fn var_view(value: Option<String>) -> Option<Seq<char>> {
    match value {
        Some(s) => Some(s@),
        None => None,
    }
}

/// The model of the outcome of loading the configuration.
pub open spec fn outcome_view(outcome: Result<Config, Fatal>) -> Result<ConfigView, Fatal> {
    match outcome {
        Ok(config) => Ok(config@),
        Err(e) => Err(e),
    }
}

/// Reads the guild identifier from the text of `GUILD_ID`.
pub fn parse_guild_id(text: &str) -> (r: Result<u64, Fatal>)
    ensures
        r == guild_id_of(text@),
{
    match parse_u64(text) {
        Some(id) => Ok(id),
        None => Err(Fatal::InvalidGuildId),
    }
}

impl Config {
    /// Builds the configuration from the values of `DISCORD_TOKEN` and
    /// `GUILD_ID`, each `None` where the variable is not set.
    pub fn from_vars(token: Option<String>, guild_id: Option<String>) -> (r: Result<Config, Fatal>)
        ensures
            outcome_view(r) == config_of(var_view(token), var_view(guild_id)),
    {
        let token = match token {
            Some(t) => t,
            None => {
                return Err(Fatal::MissingToken);
            },
        };
        let guild_id = match guild_id {
            Some(g) => g,
            None => {
                return Err(Fatal::MissingGuildId);
            },
        };
        match parse_guild_id(guild_id.as_str()) {
            Ok(id) => Ok(Config { token, guild_id: id }),
            Err(e) => Err(e),
        }
    }
}

/// Without a credential no configuration is built, whatever `GUILD_ID`
/// holds.
pub proof fn lemma_missing_token_is_refused(guild_id: Option<Seq<char>>)
    ensures
        config_of(None, guild_id) matches Err(condition) && condition == Fatal::MissingToken,
{
}

/// A `GUILD_ID` that is not a 64-bit integer in decimal gives no
/// configuration, whatever the credential is.
pub proof fn lemma_invalid_guild_id_is_refused(token: Option<Seq<char>>, guild_id: Seq<char>)
    requires
        !is_decimal_u64(guild_id),
    ensures
        config_of(token, Some(guild_id)) is Err,
        token is Some ==> (config_of(token, Some(guild_id)) matches Err(condition)
            && condition == Fatal::InvalidGuildId),
{
}

/// A configuration is built exactly when both variables are set and
/// `GUILD_ID` is a 64-bit integer in decimal; it then holds the credential
/// unchanged and the number that `GUILD_ID` denotes.
pub proof fn lemma_config_built_iff(token: Option<Seq<char>>, guild_id: Option<Seq<char>>)
    ensures
        config_of(token, guild_id) is Ok <==> token is Some && guild_id is Some
            && is_decimal_u64(guild_id->0),
        config_of(token, guild_id) matches Ok(config) ==> config.token == token->0
            && config.guild_id == decimal_value(unsigned_part(guild_id->0)),
{
}

} // verus!
