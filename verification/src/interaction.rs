//! Inbound interaction events, held as the plain values that the bot reads.

use vstd::prelude::*;

verus! {

/// The resolved value of one command option.
///
/// Users, channels, roles and attachments are held by their identifiers. A
/// `Number` is a floating-point value on the platform; only its kind is kept.
/// `Unknown` stands for a kind that the platform added later.
#[derive(Debug, PartialEq, Eq)]
pub enum OptionValue {
    String(String),
    Integer(i64),
    Boolean(bool),
    User(u64),
    Channel(u64),
    Role(u64),
    Number,
    Attachment(u64),
    Unknown,
}

/// Mathematical model of an [`OptionValue`].
pub enum OptionValueView {
    String(Seq<char>),
    Integer(i64),
    Boolean(bool),
    User(u64),
    Channel(u64),
    Role(u64),
    Number,
    Attachment(u64),
    Unknown,
}

impl View for OptionValue {
    type V = OptionValueView;

    open spec fn view(&self) -> OptionValueView {
        match self {
            OptionValue::String(s) => OptionValueView::String(s@),
            OptionValue::Integer(n) => OptionValueView::Integer(*n),
            OptionValue::Boolean(b) => OptionValueView::Boolean(*b),
            OptionValue::User(id) => OptionValueView::User(*id),
            OptionValue::Channel(id) => OptionValueView::Channel(*id),
            OptionValue::Role(id) => OptionValueView::Role(*id),
            OptionValue::Number => OptionValueView::Number,
            OptionValue::Attachment(id) => OptionValueView::Attachment(*id),
            OptionValue::Unknown => OptionValueView::Unknown,
        }
    }
}

impl Clone for OptionValue {
    fn clone(&self) -> (r: Self)
        ensures
            r@ == self@,
    {
        match self {
            OptionValue::String(s) => OptionValue::String(s.clone()),
            OptionValue::Integer(n) => OptionValue::Integer(*n),
            OptionValue::Boolean(b) => OptionValue::Boolean(*b),
            OptionValue::User(id) => OptionValue::User(*id),
            OptionValue::Channel(id) => OptionValue::Channel(*id),
            OptionValue::Role(id) => OptionValue::Role(*id),
            OptionValue::Number => OptionValue::Number,
            OptionValue::Attachment(id) => OptionValue::Attachment(*id),
            OptionValue::Unknown => OptionValue::Unknown,
        }
    }
}

/// The model of a value that may be absent.
pub open spec fn value_view(value: Option<OptionValue>) -> Option<OptionValueView> {
    match value {
        Some(v) => Some(v@),
        None => None,
    }
}

/// One named parameter of an invocation, with its resolved value if the
/// platform supplied one.
#[derive(Debug, PartialEq, Eq)]
pub struct CommandDataOption {
    pub name: String,
    pub resolved: Option<OptionValue>,
}

/// Mathematical model of a [`CommandDataOption`].
pub struct CommandDataOptionView {
    pub name: Seq<char>,
    pub resolved: Option<OptionValueView>,
}

impl View for CommandDataOption {
    type V = CommandDataOptionView;

    open spec fn view(&self) -> CommandDataOptionView {
        CommandDataOptionView { name: self.name@, resolved: value_view(self.resolved) }
    }
}

/// The data of a command invocation: its options, in the order in which the
/// platform delivered them.
#[derive(Debug, PartialEq, Eq)]
pub struct CommandData {
    pub options: Vec<CommandDataOption>,
}

/// Mathematical model of a [`CommandData`].
pub struct CommandDataView {
    pub options: Seq<CommandDataOptionView>,
}

impl View for CommandData {
    type V = CommandDataView;

    open spec fn view(&self) -> CommandDataView {
        CommandDataView {
            options: Seq::new(self.options@.len(), |i: int| self.options@[i]@),
        }
    }
}

/// An inbound interaction. Only a command invocation carries data that the
/// bot reads.
#[derive(Debug, PartialEq, Eq)]
pub enum Interaction {
    Ping,
    ApplicationCommand(CommandData),
    MessageComponent,
    Autocomplete,
    ModalSubmit,
}

/// Mathematical model of an [`Interaction`].
pub enum InteractionView {
    Ping,
    ApplicationCommand(CommandDataView),
    MessageComponent,
    Autocomplete,
    ModalSubmit,
}

impl View for Interaction {
    type V = InteractionView;

    open spec fn view(&self) -> InteractionView {
        match self {
            Interaction::Ping => InteractionView::Ping,
            Interaction::ApplicationCommand(data) => InteractionView::ApplicationCommand(data@),
            Interaction::MessageComponent => InteractionView::MessageComponent,
            Interaction::Autocomplete => InteractionView::Autocomplete,
            Interaction::ModalSubmit => InteractionView::ModalSubmit,
        }
    }
}

/// The option at index `i` is named `name`, and no option before it is.
pub open spec fn is_first_named(
    options: Seq<CommandDataOptionView>,
    name: Seq<char>,
    i: int,
) -> bool {
    &&& 0 <= i < options.len()
    &&& options[i].name == name
    &&& forall|j: int| 0 <= j < i ==> (#[trigger] options[j]).name != name
}

/// Some option of `options` is named `name`.
pub open spec fn has_named(options: Seq<CommandDataOptionView>, name: Seq<char>) -> bool {
    exists|i: int| 0 <= i < options.len() && (#[trigger] options[i]).name == name
}

/// The index of the first option named `name`, if there is one.
pub open spec fn first_named(options: Seq<CommandDataOptionView>, name: Seq<char>) -> Option<int> {
    if exists|i: int| is_first_named(options, name, i) {
        Some(choose|i: int| is_first_named(options, name, i))
    } else {
        None
    }
}

/// The resolved value of the first option named `name`. It is `None` both
/// when no option has that name and when that option carries no resolved
/// value.
pub open spec fn param_value(data: CommandDataView, name: Seq<char>) -> Option<OptionValueView> {
    match first_named(data.options, name) {
        Some(i) => data.options[i].resolved,
        None => None,
    }
}

/// The first option named `name` is the one that `first_named` gives.
pub proof fn lemma_first_named_unique(
    options: Seq<CommandDataOptionView>,
    name: Seq<char>,
    i: int,
)
    requires
        is_first_named(options, name, i),
    ensures
        first_named(options, name) == Some(i),
{
    let k = choose|k: int| is_first_named(options, name, k);
    if k < i {
        assert(options[k].name != name);
    } else if i < k {
        assert(options[i].name != name);
    }
}

/// Where some option at or before index `i` is named `name`, one of them is
/// the first.
pub proof fn lemma_named_has_first(options: Seq<CommandDataOptionView>, name: Seq<char>, i: int)
    requires
        0 <= i < options.len(),
        options[i].name == name,
    ensures
        exists|k: int| 0 <= k <= i && is_first_named(options, name, k),
    decreases i,
{
    if exists|j: int| 0 <= j < i && (#[trigger] options[j]).name == name {
        let j = choose|j: int| 0 <= j < i && (#[trigger] options[j]).name == name;
        lemma_named_has_first(options, name, j);
    } else {
        assert(is_first_named(options, name, i));
    }
}

/// There is a first option named `name` exactly when some option is named
/// `name`, and `first_named` gives its index.
pub proof fn lemma_first_named_iff(options: Seq<CommandDataOptionView>, name: Seq<char>)
    ensures
        first_named(options, name) is Some <==> has_named(options, name),
        first_named(options, name) matches Some(i) ==> is_first_named(options, name, i),
{
    if has_named(options, name) {
        let i = choose|i: int| 0 <= i < options.len() && (#[trigger] options[i]).name == name;
        lemma_named_has_first(options, name, i);
    }
    if first_named(options, name) is Some {
        let k = first_named(options, name)->0;
        assert(options[k].name == name);
    }
}

/// Looks up the parameter `param` among the options of `data`: the resolved
/// value of the first option with that name.
pub fn unwrap_appcmd_param(data: &CommandData, param: String) -> (r: Option<OptionValue>)
    ensures
        value_view(r) == param_value(data@, param@),
{
    let mut i: usize = 0;
    while i < data.options.len()
        invariant
            0 <= i <= data.options.len(),
            forall|j: int| 0 <= j < i ==> (#[trigger] data@.options[j]).name != param@,
        decreases data.options.len() - i,
    {
        if data.options[i].name == param {
            proof {
                lemma_first_named_unique(data@.options, param@, i as int);
            }
            return match &data.options[i].resolved {
                Some(value) => Some(value.clone()),
                None => None,
            };
        }
        i += 1;
    }
    proof {
        lemma_first_named_iff(data@.options, param@);
    }
    None
}

} // verus!
