//! The control channel: the commands a separate tool writes into a named pipe,
//! one per line, and how the bot reads them back.

use vstd::prelude::*;
use crate::text::{chars_of, same_chars, string_of, trim_chars, trimmed};

verus! {

/// A control command.
#[derive(Debug, Clone, Copy, PartialEq, Eq)]
pub enum Command {
    /// Reload the permissions file.
    UpdatePermissions,
    /// Stop the bot.
    Shutdown,
}

/// The control tool's arguments: a command and the pipe to write it to.
#[derive(Debug)]
pub struct Cli {
    pub command: Command,
    pub path: String,
}

/// Sends commands to the pipe at `path`.
#[derive(Debug)]
pub struct CommandProcessor {
    path: String,
}

/// The word that stands for a command in the pipe.
pub open spec fn command_word(c: Command) -> Seq<char> {
    match c {
        Command::UpdatePermissions => "update_permissions"@,
        Command::Shutdown => "shutdown"@,
    }
}

/// The line the control tool writes for a command: its word and a newline.
pub open spec fn command_line_text(c: Command) -> Seq<char> {
    command_word(c).push('\n')
}

/// The command a line of the pipe holds: its word, with white space around it allowed.
pub open spec fn command_of_line(line: Seq<char>) -> Option<Command> {
    if trimmed(line) == "update_permissions"@ {
        Some(Command::UpdatePermissions)
    } else if trimmed(line) == "shutdown"@ {
        Some(Command::Shutdown)
    } else {
        None
    }
}

impl Command {
    /// The word that stands for the command in the pipe.
    pub fn word(&self) -> (r: String)
        ensures
            r@ == command_word(*self),
    {
        match self {
            Command::UpdatePermissions => String::from_str("update_permissions"),
            Command::Shutdown => String::from_str("shutdown"),
        }
    }

    /// The line written into the pipe for the command.
    pub fn line(&self) -> (r: String)
        ensures
            r@ == command_line_text(*self),
    {
        let w = self.word();
        let mut c = chars_of(w.as_str());
        c.push('\n');
        string_of(&c)
    }
}

/// The command that a line read from the pipe holds; other lines hold none.
pub fn parse_control_line(line: &str) -> (r: Option<Command>)
    ensures
        r == command_of_line(line@),
{
    let c = chars_of(line);
    let t = trim_chars(&c);
    let u = chars_of("update_permissions");
    if same_chars(&t, &u) {
        return Some(Command::UpdatePermissions);
    }
    let s = chars_of("shutdown");
    if same_chars(&t, &s) {
        return Some(Command::Shutdown);
    }
    None
}

impl CommandProcessor {
    pub closed spec fn path_value(&self) -> Seq<char> {
        self.path@
    }

    pub fn new(path: String) -> (r: Self)
        ensures
            r.path_value() == path@,
    {
        CommandProcessor { path }
    }

    /// The pipe the commands go to.
    pub fn path(&self) -> (r: String)
        ensures
            r@ == self.path_value(),
    {
        self.path.clone()
    }
}

} // verus!

verus! {

/// What the control tool writes for a command, the bot reads back as that command.
pub proof fn lemma_command_line_round_trip(c: Command)
    ensures
        command_of_line(command_line_text(c)) == Some(c),
{
    reveal_strlit("update_permissions");
    reveal_strlit("shutdown");
    let w = command_word(c);
    let l = w.push('\n');
    assert(l.drop_last() =~= w);
    assert(!crate::text::is_white_space(l[0]));
    assert(crate::text::strip_start(l, crate::text::space_pred()) == l);
    assert(!crate::text::is_white_space(w.last()));
    assert(crate::text::strip_end(w, crate::text::space_pred()) == w);
    assert(trimmed(l) == w);
    assert("update_permissions"@ != "shutdown"@) by {
        assert("update_permissions"@.len() != "shutdown"@.len());
    }
}

} // verus!
