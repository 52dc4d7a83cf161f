//! The failure policy: nothing is recovered from. Whatever goes wrong ends
//! the process, and no call is made a second time.

use vstd::prelude::*;

verus! {

/// The conditions that end the process.
#[derive(Debug, Clone, Copy, PartialEq, Eq, Structural)]
pub enum Fatal {
    /// `DISCORD_TOKEN` is not set.
    MissingToken,
    /// `GUILD_ID` is not set.
    MissingGuildId,
    /// `GUILD_ID` is set, but is not an unsigned 64-bit integer in decimal.
    InvalidGuildId,
    /// A command invocation carries no resolved value for `content`.
    MissingContent,
    /// The connection could not be set up, or was lost for good.
    ConnectionFailed,
    /// The platform did not take the command set.
    RegistrationFailed,
    /// The platform did not take the reply.
    ResponseFailed,
}

/// The calls that the process makes to the platform.
#[derive(Debug, Clone, Copy, PartialEq, Eq, Structural)]
pub enum Call {
    /// Setting up and keeping the gateway connection.
    Connect,
    /// Submitting the command set of the guild.
    Register,
    /// Sending the reply to an interaction.
    Respond,
}

/// The condition that a failure of `call` amounts to.
pub open spec fn failure_of(call: Call) -> Fatal {
    match call {
        Call::Connect => Fatal::ConnectionFailed,
        Call::Register => Fatal::RegistrationFailed,
        Call::Respond => Fatal::ResponseFailed,
    }
}

/// Decides what follows a call that has returned with `outcome`. After a
/// success the process carries on with what the call gave. A failure ends
/// it: every failed call is fatal, whatever the reason, and none is made
/// again.
pub fn after_call<T, E>(call: Call, outcome: Result<T, E>) -> (r: Result<T, Fatal>)
    ensures
        r is Ok <==> outcome is Ok,
        outcome matches Ok(value) ==> r == Ok::<T, Fatal>(value),
        outcome is Err ==> r == Err::<T, Fatal>(failure_of(call)),
{
    match outcome {
        Ok(value) => Ok(value),
        Err(_) => match call {
            Call::Connect => Err(Fatal::ConnectionFailed),
            Call::Register => Err(Fatal::RegistrationFailed),
            Call::Respond => Err(Fatal::ResponseFailed),
        },
    }
}

impl Fatal {
    /// The diagnostic that goes with this condition.
    pub open spec fn message_text(self) -> Seq<char> {
        match self {
            Fatal::MissingToken => "Need BOT_TOKEN"@,
            Fatal::MissingGuildId => "Expected GUILD_ID in environment"@,
            Fatal::InvalidGuildId => "GUILD_ID must be an integer"@,
            Fatal::MissingContent => "should have content value"@,
            Fatal::ConnectionFailed => "Client error"@,
            Fatal::RegistrationFailed => "error setting up commands"@,
            Fatal::ResponseFailed => "interaction response failed"@,
        }
    }

    /// The diagnostic to report before the process ends.
    pub fn message(&self) -> (r: String)
        ensures
            r@ == self.message_text(),
    {
        match self {
            Fatal::MissingToken => "Need BOT_TOKEN".to_string(),
            Fatal::MissingGuildId => "Expected GUILD_ID in environment".to_string(),
            Fatal::InvalidGuildId => "GUILD_ID must be an integer".to_string(),
            Fatal::MissingContent => "should have content value".to_string(),
            Fatal::ConnectionFailed => "Client error".to_string(),
            Fatal::RegistrationFailed => "error setting up commands".to_string(),
            Fatal::ResponseFailed => "interaction response failed".to_string(),
        }
    }
}

} // verus!
