//! The commands of the tool and what it does when started.
use vstd::prelude::*;

verus! {

/// A command of the tool.
#[derive(PartialEq, Eq, Structural, Clone, Copy, Debug)]
pub enum CliCommand {
    Help,
    StoreLocations,
    Stores,
    Products,
    BuzzMessages,
}

/// The name a command is called by on the command line.
pub open spec fn command_name(c: CliCommand) -> Seq<char> {
    match c {
        CliCommand::Help => "help"@,
        CliCommand::StoreLocations => "store_locations"@,
        CliCommand::Stores => "stores"@,
        CliCommand::Products => "products"@,
        CliCommand::BuzzMessages => "buzz_messages"@,
    }
}

/// The command called by `name`, if there is one.
pub open spec fn command_named(name: Seq<char>) -> Option<CliCommand> {
    if name == "help"@ {
        Some(CliCommand::Help)
    } else if name == "store_locations"@ {
        Some(CliCommand::StoreLocations)
    } else if name == "stores"@ {
        Some(CliCommand::Stores)
    } else if name == "products"@ {
        Some(CliCommand::Products)
    } else if name == "buzz_messages"@ {
        Some(CliCommand::BuzzMessages)
    } else {
        None
    }
}

/// The collection a command reads and the name its images are stored under.
pub open spec fn target_of(c: CliCommand) -> Option<(Seq<char>, Seq<char>)> {
    match c {
        CliCommand::Stores => Some(("stores"@, "store_image"@)),
        CliCommand::Products => Some(("products"@, "product_image"@)),
        CliCommand::BuzzMessages => Some(("buzz_messages"@, "buzz_message"@)),
        _ => None,
    }
}

/// A collection of the database and the name its images are stored under.
pub struct CollectionTarget {
    pub collection_name: String,
    pub source_name: String,
}

/// `c` with an ASCII capital letter turned into its small letter.
pub open spec fn ascii_lower(c: char) -> char {
    if 'A' <= c && c <= 'Z' {
        ((c as u32) + 32) as char
    } else {
        c
    }
}

/// `s` with every ASCII capital letter turned into its small letter.
pub open spec fn ascii_lowered(s: Seq<char>) -> Seq<char> {
    s.map_values(|c: char| ascii_lower(c))
}

/// The command a name given on the command line selects: command names are
/// matched without regard to case, as the command-line decoder lowercases
/// the given name before comparing it with the (lowercase) command names.
/// Lowercasing only the ASCII letters selects the same command as full
/// Unicode lowercasing: every command name is lowercase ASCII without a
/// `k`, and the only character outside ASCII whose small form is ASCII is
/// the Kelvin sign, whose small form is `k`.
pub open spec fn command_selected(name: Seq<char>) -> Option<CliCommand> {
    command_named(ascii_lowered(name))
}

/// `c` with an ASCII capital letter turned into its small letter.
fn lower_char(c: char) -> (res: char)
    ensures
        res == ascii_lower(c),
{
    if 'A' <= c && c <= 'Z' {
        ((c as u8) + 32) as char
    } else {
        c
    }
}

/// Whether `s`, its ASCII letters lowercased, is the text `t`.
fn same_text_ignoring_case(s: &str, t: &str) -> (res: bool)
    ensures
        res == (ascii_lowered(s@) == t@),
{
    let n = s.unicode_len();
    let m = t.unicode_len();
    if n != m {
        assert(ascii_lowered(s@).len() != t@.len());
        return false;
    }
    let mut i: usize = 0;
    while i < n
        invariant
            n == s@.len(),
            n == t@.len(),
            i <= n,
            forall|j: int| 0 <= j < i ==> ascii_lower(s@[j]) == t@[j],
        decreases n - i,
    {
        if lower_char(s.get_char(i)) != t.get_char(i) {
            assert(ascii_lowered(s@)[i as int] != t@[i as int]);
            return false;
        }
        i = i + 1;
    }
    assert(ascii_lowered(s@) =~= t@);
    true
}

/// The command selected by the name `name`, its case ignored, if there is one.
pub fn parse_command(name: &str) -> (res: Option<CliCommand>)
    ensures
        res == command_selected(name@),
{
    if same_text_ignoring_case(name, "help") {
        Some(CliCommand::Help)
    } else if same_text_ignoring_case(name, "store_locations") {
        Some(CliCommand::StoreLocations)
    } else if same_text_ignoring_case(name, "stores") {
        Some(CliCommand::Stores)
    } else if same_text_ignoring_case(name, "products") {
        Some(CliCommand::Products)
    } else if same_text_ignoring_case(name, "buzz_messages") {
        Some(CliCommand::BuzzMessages)
    } else {
        None
    }
}

impl CliCommand {
    /// The name this command is called by.
    pub fn name(&self) -> (res: &'static str)
        ensures
            res@ == command_name(*self),
    {
        match self {
            CliCommand::Help => "help",
            CliCommand::StoreLocations => "store_locations",
            CliCommand::Stores => "stores",
            CliCommand::Products => "products",
            CliCommand::BuzzMessages => "buzz_messages",
        }
    }

    /// The collection this command recreates the images of, if it works on one.
    pub fn target(&self) -> (res: Option<CollectionTarget>)
        ensures
            match res {
                Some(t) => target_of(*self) == Some((t.collection_name@, t.source_name@)),
                None => target_of(*self) is None,
            },
    {
        match self {
            CliCommand::Stores => Some(
                CollectionTarget {
                    collection_name: String::from_str("stores"),
                    source_name: String::from_str("store_image"),
                },
            ),
            CliCommand::Products => Some(
                CollectionTarget {
                    collection_name: String::from_str("products"),
                    source_name: String::from_str("product_image"),
                },
            ),
            CliCommand::BuzzMessages => Some(
                CollectionTarget {
                    collection_name: String::from_str("buzz_messages"),
                    source_name: String::from_str("buzz_message"),
                },
            ),
            _ => None,
        }
    }
}

/// Every command is selected by its own name, in any mix of cases, and by
/// no name that differs from it in more than case.
pub proof fn lemma_command_names_round_trip(c: CliCommand, name: Seq<char>)
    ensures
        command_selected(command_name(c)) == Some(c),
        command_selected(name) == Some(c) <==> ascii_lowered(name) == command_name(c),
{
    reveal_strlit("help");
    reveal_strlit("store_locations");
    reveal_strlit("stores");
    reveal_strlit("products");
    reveal_strlit("buzz_messages");
    assert("help"@.len() == 4);
    assert("stores"@.len() == 6);
    assert("products"@.len() == 8);
    assert("store_locations"@.len() == 15);
    assert("buzz_messages"@.len() == 13);
    let n = command_name(c);
    assert forall|i: int| 0 <= i < n.len() implies !('A' <= #[trigger] n[i] && n[i] <= 'Z') by {}
    assert(ascii_lowered(n) =~= n);
}

/// Lowercasing a name first selects the same command.
pub proof fn lemma_selection_ignores_case(name: Seq<char>)
    ensures
        command_selected(ascii_lowered(name)) == command_selected(name),
{
    assert(ascii_lowered(ascii_lowered(name)) =~= ascii_lowered(name));
}

/// What the tool does when started.
#[derive(PartialEq, Eq, Structural, Clone, Copy, Debug)]
pub enum StartAction {
    /// Print the list of commands.
    ListCommands,
    /// Ask for a command, listing them.
    AskForCommand,
    /// Run the command.
    Run(CliCommand),
}

/// What the tool does when started with the `--list` flag set or not and
/// with the command given, if any: the list comes first, then the command.
pub fn start_action(list_flag: bool, command: Option<CliCommand>) -> (res: StartAction)
    ensures
        res == (if list_flag {
            StartAction::ListCommands
        } else {
            match command {
                Some(c) => StartAction::Run(c),
                None => StartAction::AskForCommand,
            }
        }),
{
    if list_flag {
        StartAction::ListCommands
    } else {
        match command {
            Some(c) => StartAction::Run(c),
            None => StartAction::AskForCommand,
        }
    }
}

} // verus!
