//! Slash commands: their kinds and option kinds, how they are described to Discord,
//! and how an incoming command finds its handler.
use vstd::prelude::*;

verus! {

/// Where a command may be used.
#[derive(Clone, Copy, Debug, PartialEq, Eq, Structural)]
pub enum CommandContext {
    Guild,
    BotDM,
    PrivateChannel,
}

impl CommandContext {
    /// Discord's number for the context.
    pub fn code(&self) -> (code: u8)
        ensures
            code == match *self {
                CommandContext::Guild => 0u8,
                CommandContext::BotDM => 1u8,
                CommandContext::PrivateChannel => 2u8,
            },
    {
        match self {
            CommandContext::Guild => 0,
            CommandContext::BotDM => 1,
            CommandContext::PrivateChannel => 2,
        }
    }
}

/// The context named in a command's declaration: "guild", "bot_dm" or "private_channel".
pub open spec fn context_named(name: Seq<char>) -> Option<CommandContext> {
    if name == "guild"@ {
        Some(CommandContext::Guild)
    } else if name == "bot_dm"@ {
        Some(CommandContext::BotDM)
    } else if name == "private_channel"@ {
        Some(CommandContext::PrivateChannel)
    } else {
        None
    }
}

impl CommandContext {
    /// The context a declaration names; `None` for a name that is none of the three.
    pub fn from_name(name: &str) -> (context: Option<CommandContext>)
        ensures
            context == context_named(name@),
    {
        if text_eq(name, "guild") {
            Some(CommandContext::Guild)
        } else if text_eq(name, "bot_dm") {
            Some(CommandContext::BotDM)
        } else if text_eq(name, "private_channel") {
            Some(CommandContext::PrivateChannel)
        } else {
            None
        }
    }
}

/// A function's name with every leading raw-identifier marker "r#" taken off.
pub open spec fn without_raw_markers(name: Seq<char>) -> Seq<char>
    decreases name.len(),
{
    if name.len() >= 2 && name[0] == 'r' && name[1] == '#' {
        without_raw_markers(name.skip(2))
    } else {
        name
    }
}

/// The name a command is registered under: the declared rename, else the name of the
/// function that handles it, without raw-identifier markers.
pub open spec fn declared_command_name(rename: Option<Seq<char>>, function_name: Seq<char>) -> Seq<char> {
    match rename {
        Some(r) => r,
        None => without_raw_markers(function_name),
    }
}

/// The name a command is registered under.
pub fn command_name(rename: Option<&str>, function_name: &str) -> (name: String)
    ensures
        name@ == declared_command_name(
            match rename {
                Some(r) => Some(r@),
                None => None,
            },
            function_name@,
        ),
{
    match rename {
        Some(r) => r.to_string(),
        None => {
            let len = function_name.unicode_len();
            let mut start: usize = 0;
            assert(function_name@.skip(0) =~= function_name@);
            while len - start >= 2 && function_name.get_char(start) == 'r' && function_name.get_char(start + 1) == '#'
                invariant
                    len == function_name@.len(),
                    start <= len,
                    without_raw_markers(function_name@) == without_raw_markers(function_name@.skip(start as int)),
                decreases len - start,
            {
                assert(function_name@.skip(start as int).skip(2) =~= function_name@.skip(start + 2));
                start = start + 2;
            }
            let rest = function_name.substring_char(start, len);
            assert(rest@ =~= function_name@.skip(start as int));
            rest.to_string()
        },
    }
}

/// A command parameter as its declaration gives it: the option's name and whether the
/// option is required. The name is the declared rename, else the parameter's binding
/// without raw-identifier markers; a parameter bound by a pattern, with no rename, has
/// no name and is refused. An option is required unless its type is an `Option`.
pub fn declared_option(rename: Option<&str>, binding: Option<&str>, is_optional: bool) -> (option: Option<(String, bool)>)
    ensures
        option is None <==> rename is None && binding is None,
        option matches Some((name, required)) ==> required == !is_optional && name@ == match rename {
            Some(r) => r@,
            None => without_raw_markers(binding->0@),
        },
{
    match (rename, binding) {
        (Some(r), _) => Some((command_name(Some(r), ""), !is_optional)),
        (None, Some(b)) => Some((command_name(None, b), !is_optional)),
        (None, None) => None,
    }
}

/// Why a command's declaration is refused.
#[derive(Clone, Copy, Debug, PartialEq, Eq, Structural)]
pub enum DeclarationError {
    /// The declaration makes the command none of slash, message or user command.
    MissingKind,
}

/// Checks a command's declaration: it must make the command a slash, message or user
/// command. The contexts it names ("guild", "bot_dm" or "private_channel"; a declaration
/// naming another is not one the macro expands) come back in order.
pub fn check_declaration(is_slash: bool, is_message: bool, is_user: bool, context_names: &Vec<&str>) -> (contexts: Result<Vec<CommandContext>, DeclarationError>)
    requires
        forall|i: int| 0 <= i < context_names@.len() ==> context_named(#[trigger] context_names@[i]@) is Some,
    ensures
        contexts is Err <==> !(is_slash || is_message || is_user),
        contexts matches Err(e) ==> e == DeclarationError::MissingKind,
        contexts matches Ok(found) ==> found@.len() == context_names@.len() && forall|i: int|
            0 <= i < context_names@.len() ==> context_named(context_names@[i]@) == Some(#[trigger] found@[i]),
{
    if !(is_slash || is_message || is_user) {
        return Err(DeclarationError::MissingKind);
    }
    let mut found: Vec<CommandContext> = Vec::new();
    let mut i: usize = 0;
    while i < context_names.len()
        invariant
            i <= context_names@.len(),
            forall|k: int| 0 <= k < context_names@.len() ==> context_named(#[trigger] context_names@[k]@) is Some,
            found@.len() == i,
            forall|k: int| 0 <= k < i ==> context_named(context_names@[k]@) == Some(#[trigger] found@[k]),
        decreases context_names@.len() - i,
    {
        let context = CommandContext::from_name(context_names[i]);
        assert(context_named(context_names@[i as int]@) is Some);
        found.push(context.unwrap());
        i = i + 1;
    }
    Ok(found)
}

/// The option that stands for a subcommand when a command is registered: a
/// subcommand option, not required, named after the subcommand, with the subcommand's
/// description or the stand-in.
pub struct SubcommandOption {
    pub kind: CommandOptionKind,
    pub name: String,
    pub required: bool,
    pub description: String,
}

/// The option that stands for the subcommand `name` with `description`.
pub fn subcommand_option(name: &str, description: &Option<String>) -> (option: SubcommandOption)
    ensures
        option.kind == CommandOptionKind::SubCommand,
        option.name@ == name@,
        !option.required,
        option.description@ == match description {
            Some(d) => d@,
            None => no_description(),
        },
{
    SubcommandOption {
        kind: CommandOptionKind::SubCommand,
        name: name.to_string(),
        required: false,
        description: subcommand_description(description),
    }
}

/// The type of a command option.
#[derive(Clone, Copy, Debug, PartialEq, Eq, Structural)]
pub enum CommandOptionKind {
    SubCommand,
    SubCommandGroup,
    String,
    Integer,
    Boolean,
    User,
    Channel,
    Role,
    Mentionable,
    Number,
    Attachment,
}

/// Discord's number for an option type: 1 for a subcommand, up to 11 for an attachment.
pub open spec fn option_kind_code(kind: CommandOptionKind) -> u8 {
    match kind {
        CommandOptionKind::SubCommand => 1,
        CommandOptionKind::SubCommandGroup => 2,
        CommandOptionKind::String => 3,
        CommandOptionKind::Integer => 4,
        CommandOptionKind::Boolean => 5,
        CommandOptionKind::User => 6,
        CommandOptionKind::Channel => 7,
        CommandOptionKind::Role => 8,
        CommandOptionKind::Mentionable => 9,
        CommandOptionKind::Number => 10,
        CommandOptionKind::Attachment => 11,
    }
}

impl CommandOptionKind {
    /// Discord's number for the option type.
    pub fn code(&self) -> (code: u8)
        ensures
            code == option_kind_code(*self),
    {
        match self {
            CommandOptionKind::SubCommand => 1,
            CommandOptionKind::SubCommandGroup => 2,
            CommandOptionKind::String => 3,
            CommandOptionKind::Integer => 4,
            CommandOptionKind::Boolean => 5,
            CommandOptionKind::User => 6,
            CommandOptionKind::Channel => 7,
            CommandOptionKind::Role => 8,
            CommandOptionKind::Mentionable => 9,
            CommandOptionKind::Number => 10,
            CommandOptionKind::Attachment => 11,
        }
    }
}

/// Which part of handling a command failed.
#[derive(Clone, Copy, Debug, PartialEq, Eq, Structural)]
pub enum CoreErrorKind {
    Autocomplete,
    Command,
    CommandArguments,
}

/// How a command is invoked: typed as a slash command, or from a user's or a message's
/// context menu.
#[derive(Clone, Copy, Debug, PartialEq, Eq, Structural)]
pub enum CommandKind {
    ChatInput,
    User,
    Message,
}

/// The kinds under which a command is registered: slash first, then message, then user.
pub fn registered_kinds(is_slash: bool, is_message: bool, is_user: bool) -> (kinds: Vec<CommandKind>)
    ensures
        kinds@ == Seq::<CommandKind>::empty()
            + (if is_slash { seq![CommandKind::ChatInput] } else { Seq::empty() })
            + (if is_message { seq![CommandKind::Message] } else { Seq::empty() })
            + (if is_user { seq![CommandKind::User] } else { Seq::empty() }),
{
    let mut kinds: Vec<CommandKind> = Vec::new();
    if is_slash {
        kinds.push(CommandKind::ChatInput);
    }
    if is_message {
        kinds.push(CommandKind::Message);
    }
    if is_user {
        kinds.push(CommandKind::User);
    }
    proof {
        assert(kinds@ =~= Seq::<CommandKind>::empty()
            + (if is_slash { seq![CommandKind::ChatInput] } else { Seq::empty() })
            + (if is_message { seq![CommandKind::Message] } else { Seq::empty() })
            + (if is_user { seq![CommandKind::User] } else { Seq::empty() }));
    }
    kinds
}

/// What Discord shows for a command or option without a description.
pub open spec fn no_description() -> Seq<char> {
    "there is no description yet, how sad..."@
}

/// The description a command is registered with: none for a user command, else its own,
/// else the stand-in.
pub fn command_description(kind: CommandKind, description: &Option<String>) -> (text: String)
    ensures
        text@ == if kind == CommandKind::User {
            Seq::<char>::empty()
        } else {
            match description {
                Some(d) => d@,
                None => no_description(),
            }
        },
{
    match kind {
        CommandKind::User => String::new(),
        _ => match description {
            Some(d) => d.clone(),
            None => String::from_str("there is no description yet, how sad..."),
        },
    }
}

/// The description of the option that stands for a subcommand: its own, else the
/// stand-in.
pub fn subcommand_description(description: &Option<String>) -> (text: String)
    ensures
        text@ == match description {
            Some(d) => d@,
            None => no_description(),
        },
{
    match description {
        Some(d) => d.clone(),
        None => String::from_str("there is no description yet, how sad..."),
    }
}

/// A list of macro arguments.
pub struct List<T>(pub Vec<T>);

impl<T> Default for List<T> {
    fn default() -> (list: List<T>)
        ensures
            list.0@.len() == 0,
    {
        List(Vec::new())
    }
}

/// Whether two texts are the same.
pub fn text_eq(a: &str, b: &str) -> (same: bool)
    ensures
        same == (a@ == b@),
{
    let len = a.unicode_len();
    if len != b.unicode_len() {
        return false;
    }
    let mut i: usize = 0;
    while i < len
        invariant
            len == a@.len(),
            len == b@.len(),
            i <= len,
            forall|k: int| 0 <= k < i ==> a@[k] == b@[k],
        decreases len - i,
    {
        if a.get_char(i) != b.get_char(i) {
            return false;
        }
        i = i + 1;
    }
    assert(a@ =~= b@);
    true
}

/// A registered command as routing sees it: its name and the names of its subcommands.
pub struct CommandEntry {
    pub name: String,
    pub subcommand_names: Vec<String>,
}

/// Where an incoming command goes.
#[derive(Clone, Copy, Debug, PartialEq, Eq, Structural)]
pub enum CommandRoute {
    /// The command at this index, which has no subcommands.
    Command { index: usize },
    /// The subcommand at `sub_index` of the command at `index`.
    Subcommand { index: usize, sub_index: usize },
}

/// `i` is the first position of `name` in `names`.
pub open spec fn first_position(names: Seq<Seq<char>>, name: Seq<char>, i: int) -> bool {
    &&& 0 <= i < names.len()
    &&& names[i] == name
    &&& forall|j: int| 0 <= j < i ==> names[j] != name
}

/// The names of the commands.
pub open spec fn entry_names(commands: Seq<CommandEntry>) -> Seq<Seq<char>> {
    commands.map_values(|c: CommandEntry| c.name@)
}

/// The names of a command's subcommands.
pub open spec fn sub_names(entry: CommandEntry) -> Seq<Seq<char>> {
    entry.subcommand_names@.map_values(|n: String| n@)
}

/// The position of the first of `names` that is `name`.
pub fn find_name(names: &Vec<String>, name: &str) -> (found: Option<usize>)
    ensures
        found matches Some(i) ==> first_position(names@.map_values(|n: String| n@), name@, i as int),
        found is None ==> !names@.map_values(|n: String| n@).contains(name@),
{
    let ghost views = names@.map_values(|n: String| n@);
    let mut i: usize = 0;
    while i < names.len()
        invariant
            i <= names@.len(),
            views == names@.map_values(|n: String| n@),
            forall|j: int| 0 <= j < i ==> views[j] != name@,
        decreases names@.len() - i,
    {
        if text_eq(names[i].as_str(), name) {
            return Some(i);
        }
        i = i + 1;
    }
    None
}

/// The position of the first option that the user is still typing, which asks for
/// autocompletion; `focused` tells, for each option in order, whether it is that one.
pub fn first_focused(focused: &Vec<bool>) -> (index: Option<usize>)
    ensures
        index matches Some(i) ==> i < focused@.len() && focused@[i as int] && forall|j: int|
            0 <= j < i ==> !focused@[j],
        index is None ==> forall|j: int| 0 <= j < focused@.len() ==> !focused@[j],
{
    let mut i: usize = 0;
    while i < focused.len()
        invariant
            i <= focused@.len(),
            forall|j: int| 0 <= j < i ==> !focused@[j],
        decreases focused@.len() - i,
    {
        if focused[i] {
            return Some(i);
        }
        i = i + 1;
    }
    None
}

/// Finds the handler of an incoming command named `name`: the first command of that name;
/// where it has subcommands, the first of its subcommands named by the command's first
/// option, which must be a subcommand option. `first_option` gives that option's name
/// and whether it is a subcommand.
pub fn route_command(commands: &Vec<CommandEntry>, name: &str, first_option: Option<(&str, bool)>) -> (route: Option<CommandRoute>)
    ensures
        route matches Some(CommandRoute::Command { index }) ==> first_position(entry_names(commands@), name@, index as int)
            && commands@[index as int].subcommand_names@.len() == 0,
        route matches Some(CommandRoute::Subcommand { index, sub_index }) ==> {
            &&& first_position(entry_names(commands@), name@, index as int)
            &&& commands@[index as int].subcommand_names@.len() > 0
            &&& first_option matches Some((option, true)) && first_position(
                sub_names(commands@[index as int]),
                option@,
                sub_index as int,
            )
        },
        route is None ==> !entry_names(commands@).contains(name@) || exists|index: int|
            first_position(entry_names(commands@), name@, index) && commands@[index].subcommand_names@.len() > 0
                && !(first_option matches Some((option, true)) && sub_names(commands@[index]).contains(option@)),
{
    let ghost names = entry_names(commands@);
    let mut i: usize = 0;
    while i < commands.len()
        invariant
            i <= commands@.len(),
            names == entry_names(commands@),
            forall|j: int| 0 <= j < i ==> names[j] != name@,
        decreases commands@.len() - i,
    {
        let command = &commands[i];
        if text_eq(command.name.as_str(), name) {
            assert(names[i as int] == name@);
            assert(first_position(names, name@, i as int));
            assert(sub_names(commands@[i as int]) == command.subcommand_names@.map_values(|n: String| n@));
            if command.subcommand_names.len() == 0 {
                return Some(CommandRoute::Command { index: i });
            }
            return match first_option {
                Some((option, true)) => match find_name(&command.subcommand_names, option) {
                    Some(sub_index) => Some(CommandRoute::Subcommand { index: i, sub_index }),
                    None => None,
                },
                _ => None,
            };
        }
        i = i + 1;
    }
    None
}

} // verus!
