//! Command declarations: the schema that the bot registers with the platform.

use vstd::prelude::*;

verus! {

/// The kinds of option that a command can declare.
#[derive(Debug, Clone, Copy, PartialEq, Eq, Structural)]
pub enum CommandOptionType {
    SubCommand,
    SubCommandGroup,
    String,
    Integer,
    Boolean,
    User,
    Channel,
    Role,
    Mentionable,
    Number,
    Attachment,
}

/// One declared parameter of a command.
#[derive(Debug, PartialEq, Eq)]
pub struct OptionDeclaration {
    pub name: String,
    pub description: String,
    pub kind: CommandOptionType,
    pub required: bool,
}

/// Mathematical model of an [`OptionDeclaration`].
pub struct OptionDeclarationView {
    pub name: Seq<char>,
    pub description: Seq<char>,
    pub kind: CommandOptionType,
    pub required: bool,
}

impl View for OptionDeclaration {
    type V = OptionDeclarationView;

    open spec fn view(&self) -> OptionDeclarationView {
        OptionDeclarationView {
            name: self.name@,
            description: self.description@,
            kind: self.kind,
            required: self.required,
        }
    }
}

/// One declared command with its parameters.
#[derive(Debug, PartialEq, Eq)]
pub struct CommandDeclaration {
    pub name: String,
    pub description: String,
    pub options: Vec<OptionDeclaration>,
}

/// Mathematical model of a [`CommandDeclaration`].
pub struct CommandDeclarationView {
    pub name: Seq<char>,
    pub description: Seq<char>,
    pub options: Seq<OptionDeclarationView>,
}

impl View for CommandDeclaration {
    type V = CommandDeclarationView;

    open spec fn view(&self) -> CommandDeclarationView {
        CommandDeclarationView {
            name: self.name@,
            description: self.description@,
            options: Seq::new(self.options@.len(), |i: int| self.options@[i]@),
        }
    }
}

/// The full command set of one guild, as submitted to the platform. It
/// replaces whatever the guild had before.
#[derive(Debug, PartialEq, Eq)]
pub struct Registration {
    pub guild_id: u64,
    pub commands: Vec<CommandDeclaration>,
}

/// Mathematical model of a [`Registration`].
pub struct RegistrationView {
    pub guild_id: u64,
    pub commands: Seq<CommandDeclarationView>,
}

impl View for Registration {
    type V = RegistrationView;

    open spec fn view(&self) -> RegistrationView {
        RegistrationView {
            guild_id: self.guild_id,
            commands: Seq::new(self.commands@.len(), |i: int| self.commands@[i]@),
        }
    }
}

/// The name of the one command.
pub const ECHO: &'static str = "echo";

/// What the platform shows beside the command.
pub const ECHO_DESCRIPTION: &'static str = "echoes input";

/// The name of the one parameter.
pub const CONTENT: &'static str = "content";

/// What the platform shows beside the parameter.
pub const CONTENT_DESCRIPTION: &'static str = "i will be echoed";

/// The name of the parameter that `echo` takes.
pub open spec fn content_name() -> Seq<char> {
    CONTENT@
}

/// The declaration of `echo`: one required string parameter `content`.
pub open spec fn echo_declaration() -> CommandDeclarationView {
    CommandDeclarationView {
        name: ECHO@,
        description: ECHO_DESCRIPTION@,
        options: seq![
            OptionDeclarationView {
                name: content_name(),
                description: CONTENT_DESCRIPTION@,
                kind: CommandOptionType::String,
                required: true,
            },
        ],
    }
}

/// The command set that the bot registers in the guild `guild_id`: `echo`
/// and nothing else.
pub open spec fn echo_registration(guild_id: u64) -> RegistrationView {
    RegistrationView { guild_id, commands: seq![echo_declaration()] }
}

/// Builds the declaration of `echo`.
pub fn echo_command() -> (r: CommandDeclaration)
    ensures
        r@ == echo_declaration(),
{
    let content = OptionDeclaration {
        name: CONTENT.to_string(),
        description: CONTENT_DESCRIPTION.to_string(),
        kind: CommandOptionType::String,
        required: true,
    };
    let mut options: Vec<OptionDeclaration> = Vec::new();
    options.push(content);
    let r = CommandDeclaration {
        name: ECHO.to_string(),
        description: ECHO_DESCRIPTION.to_string(),
        options,
    };
    assert(r@.options =~= echo_declaration().options);
    r
}

} // verus!
