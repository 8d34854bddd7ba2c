//! The command vocabulary and its wire form.

use vstd::prelude::*;
use vstd::string::*;

verus! {

/// Virtual key code of Backspace.
pub const VK_BACK: u32 = 8;

/// Virtual key code of Enter / Return.
pub const VK_RETURN: u32 = 13;

/// Virtual key code of Escape.
pub const VK_ESCAPE: u32 = 27;

/// Virtual key code of Delete.
pub const VK_DELETE: u32 = 46;

/// What a key-down means to the consumer.
#[derive(Debug, Clone, PartialEq, Eq)]
pub enum Command {
    Cancel,
    Submit,
    Delete,
    Literal(String),
}

/// The mathematical value of a [`Command`]: the text of a literal is a
/// sequence of characters.
pub enum CommandView {
    Cancel,
    Submit,
    Delete,
    Literal(Seq<char>),
}

impl View for Command {
    type V = CommandView;

    open spec fn view(&self) -> CommandView {
        match self {
            Command::Cancel => CommandView::Cancel,
            Command::Submit => CommandView::Submit,
            Command::Delete => CommandView::Delete,
            Command::Literal(text) => CommandView::Literal(text@),
        }
    }
}

/// The fixed control table: the command that a key code stands for whatever
/// the keyboard state and layout are, if it has one.
pub open spec fn control_entry(key: u32) -> Option<CommandView> {
    if key == VK_DELETE || key == VK_BACK {
        Some(CommandView::Delete)
    } else if key == VK_ESCAPE {
        Some(CommandView::Cancel)
    } else if key == VK_RETURN {
        Some(CommandView::Submit)
    } else {
        None
    }
}

/// The payload that stands for a command on the outbound event stream.
pub open spec fn wire_text(command: CommandView) -> Seq<char> {
    match command {
        CommandView::Cancel => "cmd:cancel"@,
        CommandView::Submit => "cmd:submit"@,
        CommandView::Delete => "cmd:delete"@,
        CommandView::Literal(text) => "key:"@ + text,
    }
}

/// Looks a key code up in the control table.
pub fn control_command(key: u32) -> (found: Option<Command>)
    ensures
        found.is_some() == control_entry(key).is_some(),
        found matches Some(command) ==> Some(command@) == control_entry(key),
{
    if key == VK_DELETE || key == VK_BACK {
        Some(Command::Delete)
    } else if key == VK_ESCAPE {
        Some(Command::Cancel)
    } else if key == VK_RETURN {
        Some(Command::Submit)
    } else {
        None
    }
}

impl Command {
    /// Serializes the command to its payload.
    pub fn wire_string(&self) -> (payload: String)
        ensures
            payload@ == wire_text(self@),
    {
        match self {
            Command::Cancel => String::from_str("cmd:cancel"),
            Command::Submit => String::from_str("cmd:submit"),
            Command::Delete => String::from_str("cmd:delete"),
            Command::Literal(text) => String::from_str("key:").concat(text.as_str()),
        }
    }
}

/// The payload grammar: a payload is one of the three command words or the
/// prefix `key:` followed by the literal's text, and nothing else.
pub proof fn law_wire_grammar(command: CommandView)
    ensures
        match command {
            CommandView::Cancel => wire_text(command) == "cmd:cancel"@,
            CommandView::Submit => wire_text(command) == "cmd:submit"@,
            CommandView::Delete => wire_text(command) == "cmd:delete"@,
            CommandView::Literal(text) => {
                &&& wire_text(command).len() == 4 + text.len()
                &&& wire_text(command).subrange(0, 4) == "key:"@
                &&& wire_text(command).skip(4) == text
            },
        },
{
    reveal_strlit("key:");
    if let CommandView::Literal(text) = command {
        assert(wire_text(command).subrange(0, 4) =~= "key:"@);
        assert(wire_text(command).skip(4) =~= text);
    }
}

/// The consumer can tell every command from its payload: two commands with
/// the same payload are the same command.
pub proof fn law_wire_text_is_injective(first: CommandView, second: CommandView)
    requires
        wire_text(first) == wire_text(second),
    ensures
        first == second,
{
    reveal_strlit("key:");
    reveal_strlit("cmd:cancel");
    reveal_strlit("cmd:submit");
    reveal_strlit("cmd:delete");
    law_wire_grammar(first);
    law_wire_grammar(second);
    let payload = wire_text(first);
    assert(payload[0] == wire_text(second)[0]);
    match (first, second) {
        (CommandView::Literal(a), CommandView::Literal(b)) => {
            assert(a == b);
        },
        (CommandView::Literal(a), _) => {
            assert(payload[0] == 'k');
            assert(wire_text(second)[0] == 'c');
        },
        (_, CommandView::Literal(b)) => {
            assert(wire_text(second)[0] == 'k');
            assert(payload[0] == 'c');
        },
        _ => {
            assert(payload[4] == wire_text(second)[4]);
            assert("cmd:cancel"@[4] == 'c');
            assert("cmd:submit"@[4] == 's');
            assert("cmd:delete"@[4] == 'd');
        },
    }
}

} // verus!
