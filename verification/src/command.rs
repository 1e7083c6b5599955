//! The command grammar: four rules, each of which looks at the whole text of a
//! datagram on its own. A text may satisfy none of them, one, or several.

use vstd::prelude::*;
use crate::text::{
    chars_of, contains, contains_pattern, find_char, first_index, has_prefix, matches_at,
    optional_view, skip_leading, skip_prefix, strip_leading, without_prefix,
};

verus! {

/// The text that asks every agent to introduce itself.
pub open spec fn discovery_word() -> Seq<char> {
    "hello"@
}

/// The word a text must hold to be read as an interfaces query.
pub open spec fn interfaces_word() -> Seq<char> {
    "ips"@
}

/// The keyword an interfaces query begins with.
pub open spec fn interfaces_keyword() -> Seq<char> {
    "ips:"@
}

/// The keyword of a shell command.
pub open spec fn shell_keyword() -> Seq<char> {
    "cmd:"@
}

/// The keyword of an info mutation.
pub open spec fn info_keyword() -> Seq<char> {
    "info:"@
}

/// The separator between a command's address and its payload.
pub open spec fn separator() -> Seq<char> {
    seq![':']
}

/// One command that a text was recognised as.
#[derive(Debug, PartialEq, Eq)]
pub enum Command {
    /// Introduce yourself.
    Discovery,
    /// List your network interfaces.
    Interfaces,
    /// Run this line in the platform shell.
    Shell { command_line: String },
    /// Take this text as your new info.
    SetInfo { info: String },
}

/// A command as plain character sequences.
pub enum CommandModel {
    Discovery,
    Interfaces,
    Shell { command_line: Seq<char> },
    SetInfo { info: Seq<char> },
}

impl View for Command {
    type V = CommandModel;

    open spec fn view(&self) -> CommandModel {
        match self {
            Command::Discovery => CommandModel::Discovery,
            Command::Interfaces => CommandModel::Interfaces,
            Command::Shell { command_line } => CommandModel::Shell { command_line: command_line@ },
            Command::SetInfo { info } => CommandModel::SetInfo { info: info@ },
        }
    }
}

/// The views of a sequence of commands.
pub open spec fn models_of(commands: Seq<Command>) -> Seq<CommandModel> {
    commands.map_values(|c: Command| c@)
}

/// Discovery: the text is exactly the discovery word. No name is involved.
pub open spec fn is_discovery(text: Seq<char>) -> bool {
    text == discovery_word()
}

/// The name an interfaces query is addressed to: what follows the keyword
/// the text begins with.
pub open spec fn interfaces_addressee(text: Seq<char>) -> Seq<char> {
    without_prefix(text, interfaces_keyword())
}

/// Interfaces query: the text holds the word, begins with the keyword, and what
/// follows the keyword is not empty and is the node's name, character for
/// character.
pub open spec fn is_interfaces_query(text: Seq<char>, node_name: Seq<char>) -> bool {
    &&& contains(text, interfaces_word())
    &&& has_prefix(text, interfaces_keyword())
    &&& interfaces_addressee(text).len() > 0
    &&& interfaces_addressee(text) == node_name
}

/// The payload that `text` carries for `node_name` under `keyword`, if any.
///
/// The text must hold the keyword somewhere. If it begins with the keyword,
/// that one keyword is dropped. The rest is cut at its first separator into
/// an address before it and a payload after it. Neither may be empty, and the
/// address must be the node's name. Separators that the payload begins with
/// are lost, however many there are.
pub open spec fn addressed_payload(
    text: Seq<char>,
    keyword: Seq<char>,
    node_name: Seq<char>,
) -> Option<Seq<char>> {
    let rest = without_prefix(text, keyword);
    let cut = first_index(rest, ':');
    if contains(text, keyword) && 0 < cut && cut + 1 < rest.len() && rest.take(cut)
        == node_name {
        Some(strip_leading(rest.skip(cut + 1), separator()))
    } else {
        None
    }
}

/// Shell command: the command line that the text carries for the node, if any.
pub open spec fn shell_payload(text: Seq<char>, node_name: Seq<char>) -> Option<Seq<char>> {
    addressed_payload(text, shell_keyword(), node_name)
}

/// Info mutation: the new info that the text carries for the node, if any.
pub open spec fn info_payload(text: Seq<char>, node_name: Seq<char>) -> Option<Seq<char>> {
    addressed_payload(text, info_keyword(), node_name)
}

/// The discovery command, if the text is one.
pub open spec fn discovery_part(text: Seq<char>) -> Seq<CommandModel> {
    if is_discovery(text) {
        seq![CommandModel::Discovery]
    } else {
        seq![]
    }
}

/// The interfaces query, if the text is one for the node.
pub open spec fn interfaces_part(text: Seq<char>, node_name: Seq<char>) -> Seq<CommandModel> {
    if is_interfaces_query(text, node_name) {
        seq![CommandModel::Interfaces]
    } else {
        seq![]
    }
}

/// The shell command, if the text carries one for the node.
pub open spec fn shell_part(text: Seq<char>, node_name: Seq<char>) -> Seq<CommandModel> {
    match shell_payload(text, node_name) {
        Some(command_line) => seq![CommandModel::Shell { command_line }],
        None => seq![],
    }
}

/// The info mutation, if the text carries one for the node.
pub open spec fn info_part(text: Seq<char>, node_name: Seq<char>) -> Seq<CommandModel> {
    match info_payload(text, node_name) {
        Some(info) => seq![CommandModel::SetInfo { info }],
        None => seq![],
    }
}

/// Every command that `text` is for the node `node_name`: the four rules are
/// tried independently and their commands listed in the fixed order
/// discovery, interfaces, shell, info.
pub open spec fn matched_commands(text: Seq<char>, node_name: Seq<char>) -> Seq<CommandModel> {
    discovery_part(text) + interfaces_part(text, node_name) + shell_part(text, node_name)
        + info_part(text, node_name)
}

/// Whether `text` is the discovery request.
pub fn discovery(text: &str) -> (yes: bool)
    ensures
        yes == is_discovery(text@),
{
    let chars = chars_of(text);
    discovery_in(&chars)
}

/// Whether `text` is an interfaces query for the node `node_name`.
pub fn interfaces_query(text: &str, node_name: &str) -> (yes: bool)
    ensures
        yes == is_interfaces_query(text@, node_name@),
{
    let chars = chars_of(text);
    let name = chars_of(node_name);
    interfaces_query_in(&chars, &name)
}

/// The command line that `text` asks the node `node_name` to run, if it asks.
pub fn shell_command(text: &str, node_name: &str) -> (command_line: Option<String>)
    ensures
        optional_view(command_line) == shell_payload(text@, node_name@),
{
    let chars = chars_of(text);
    let name = chars_of(node_name);
    let keyword = chars_of("cmd:");
    payload_in(text, &chars, &keyword, &name)
}

/// The new info that `text` gives the node `node_name`, if it gives one.
pub fn info_mutation(text: &str, node_name: &str) -> (info: Option<String>)
    ensures
        optional_view(info) == info_payload(text@, node_name@),
{
    let chars = chars_of(text);
    let name = chars_of(node_name);
    let keyword = chars_of("info:");
    payload_in(text, &chars, &keyword, &name)
}

/// Every command that `text` is for the node `node_name`, in the order
/// discovery, interfaces, shell, info.
pub fn classify(text: &str, node_name: &str) -> (commands: Vec<Command>)
    ensures
        models_of(commands@) == matched_commands(text@, node_name@),
{
    let chars = chars_of(text);
    let name = chars_of(node_name);
    let mut commands: Vec<Command> = Vec::new();
    if discovery_in(&chars) {
        commands.push(Command::Discovery);
    }
    assert(models_of(commands@) =~= discovery_part(text@));
    if interfaces_query_in(&chars, &name) {
        commands.push(Command::Interfaces);
    }
    assert(models_of(commands@) =~= discovery_part(text@) + interfaces_part(text@, node_name@));
    let shell_keyword = chars_of("cmd:");
    match payload_in(text, &chars, &shell_keyword, &name) {
        Some(command_line) => {
            commands.push(Command::Shell { command_line });
        },
        None => {},
    }
    assert(models_of(commands@) =~= discovery_part(text@) + interfaces_part(text@, node_name@)
        + shell_part(text@, node_name@));
    let info_keyword = chars_of("info:");
    match payload_in(text, &chars, &info_keyword, &name) {
        Some(info) => {
            commands.push(Command::SetInfo { info });
        },
        None => {},
    }
    assert(models_of(commands@) =~= matched_commands(text@, node_name@));
    commands
}

fn discovery_in(chars: &Vec<char>) -> (yes: bool)
    ensures
        yes == is_discovery(chars@),
{
    let word = chars_of("hello");
    let yes = chars.len() == word.len() && matches_at(chars, 0, &word);
    proof {
        if chars.len() == word.len() {
            assert(chars@.subrange(0, chars@.len() as int) == chars@);
        }
    }
    yes
}

fn interfaces_query_in(chars: &Vec<char>, name: &Vec<char>) -> (yes: bool)
    ensures
        yes == is_interfaces_query(chars@, name@),
{
    let keyword = chars_of("ips:");
    if !matches_at(chars, 0, &keyword) {
        return false;
    }
    proof {
        lemma_keyword_holds_word(chars@);
    }
    let start = keyword.len();
    let yes = start < chars.len() && chars.len() - start == name.len() && matches_at(
        chars,
        start,
        name,
    );
    proof {
        let addressee = chars@.skip(start as int);
        assert(addressee == chars@.subrange(start as int, chars@.len() as int));
    }
    yes
}

fn payload_in(text: &str, chars: &Vec<char>, keyword: &Vec<char>, name: &Vec<char>) -> (payload:
    Option<String>)
    requires
        chars@ == text@,
    ensures
        optional_view(payload) == addressed_payload(text@, keyword@, name@),
{
    if !contains_pattern(chars, keyword) {
        return None;
    }
    let start = skip_prefix(chars, keyword);
    let cut = find_char(chars, start, ':');
    if cut == start || cut >= chars.len() || chars.len() - cut < 2 {
        return None;
    }
    let ghost rest = chars@.skip(start as int);
    assert(rest.take(cut - start) == chars@.subrange(start as int, cut as int));
    if !(cut - start == name.len() && matches_at(chars, start, name)) {
        return None;
    }
    let colon = chars_of(":");
    proof {
        reveal_strlit(":");
        assert(colon@ =~= separator());
        assert(rest.skip(cut - start + 1) == chars@.skip(cut + 1));
    }
    let from = skip_leading(chars, cut + 1, &colon);
    let payload = text.substring_char(from, chars.len()).to_owned();
    assert(payload@ == chars@.skip(from as int));
    Some(payload)
}

/// A text that begins with the interfaces keyword holds the interfaces word.
pub proof fn lemma_keyword_holds_word(text: Seq<char>)
    requires
        has_prefix(text, interfaces_keyword()),
    ensures
        contains(text, interfaces_word()),
{
    reveal_strlit("ips:");
    reveal_strlit("ips");
    assert(text.subrange(0, 3) =~= text.subrange(0, 4).subrange(0, 3));
    assert(interfaces_keyword().subrange(0, 3) =~= interfaces_word());
    assert(crate::text::occurs_at(text, interfaces_word(), 0));
}

} // verus!
