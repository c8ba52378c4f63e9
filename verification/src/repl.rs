//! The command loop: what a line that was typed asks for.

use vstd::prelude::*;
use vstd::string::*;

verus! {

/// What a line asks for.
#[derive(Debug, Clone, PartialEq, Eq)]
pub enum Command {
    /// `clear`: the loop is no terminal, and gives up.
    Clear,
    /// `wipe`: forget the memories and the conversation under way.
    Wipe,
    /// `save`: write the state to its file.
    Save,
    /// `end`: close the conversation under way.
    End,
    /// `log`: print the state without the embeddings.
    Log,
    /// `get`: read a phrase, and print the memory most similar to it.
    Get,
    /// Anything else is said to the agent.
    Say(String),
}

/// What a [`Command`] holds.
pub enum CommandView {
    Clear,
    Wipe,
    Save,
    End,
    Log,
    Get,
    Say(Seq<char>),
}

impl View for Command {
    type V = CommandView;

    open spec fn view(&self) -> CommandView {
        match self {
            Command::Clear => CommandView::Clear,
            Command::Wipe => CommandView::Wipe,
            Command::Save => CommandView::Save,
            Command::End => CommandView::End,
            Command::Log => CommandView::Log,
            Command::Get => CommandView::Get,
            Command::Say(message) => CommandView::Say(message@),
        }
    }
}

/// The characters of `text` before its first line feed, all of them where it
/// holds none.
pub open spec fn first_line(text: Seq<char>) -> Seq<char>
    decreases text.len(),
{
    if text.len() == 0 || text[0] == '\n' {
        Seq::empty()
    } else {
        seq![text[0]] + first_line(text.drop_first())
    }
}

/// What `line` asks for: one of the six command words, written exactly, is
/// that command, and every other line is said to the agent as it stands.
pub open spec fn command_of(line: Seq<char>) -> CommandView {
    if line == "clear"@ {
        CommandView::Clear
    } else if line == "wipe"@ {
        CommandView::Wipe
    } else if line == "save"@ {
        CommandView::Save
    } else if line == "end"@ {
        CommandView::End
    } else if line == "log"@ {
        CommandView::Log
    } else if line == "get"@ {
        CommandView::Get
    } else {
        CommandView::Say(line)
    }
}

proof fn lemma_first_line_is_prefix(text: Seq<char>, n: int)
    requires
        0 <= n <= text.len(),
        forall|j: int| 0 <= j < n ==> text[j] != '\n',
        n < text.len() ==> text[n] == '\n',
    ensures
        first_line(text) == text.subrange(0, n),
    decreases text.len(),
{
    if n == 0 {
        assert(text.subrange(0, 0) =~= Seq::<char>::empty());
    } else {
        let rest = text.drop_first();
        assert forall|j: int| 0 <= j < n - 1 implies rest[j] != '\n' by {
            assert(rest[j] == text[j + 1]);
        }
        lemma_first_line_is_prefix(rest, n - 1);
        assert(text.subrange(0, n) =~= seq![text[0]] + rest.subrange(0, n - 1));
    }
}

fn first_line_length(text: &str) -> (n: usize)
    ensures
        n <= text@.len(),
        first_line(text@) == text@.subrange(0, n as int),
{
    let total = text.unicode_len();
    let mut n: usize = 0;
    for c in it: text.chars()
        invariant
            total == text@.len(),
            n == it.index(),
            it.seq() == text@,
            forall|j: int| 0 <= j < n ==> text@[j] != '\n',
    {
        if c == '\n' {
            proof {
                lemma_first_line_is_prefix(text@, n as int);
            }
            return n;
        }
        n += 1;
    }
    proof {
        lemma_first_line_is_prefix(text@, n as int);
    }
    n
}

/// Reads what was typed: the text before the first line feed is the line, and
/// the line is a command or something said to the agent.
pub fn monikai_repl(buffer: &str) -> (command: Command)
    ensures
        command@ == command_of(first_line(buffer@)),
{
    let n = first_line_length(buffer);
    let line = String::from_str(buffer.substring_char(0, n));
    if line == String::from_str("clear") {
        Command::Clear
    } else if line == String::from_str("wipe") {
        Command::Wipe
    } else if line == String::from_str("save") {
        Command::Save
    } else if line == String::from_str("end") {
        Command::End
    } else if line == String::from_str("log") {
        Command::Log
    } else if line == String::from_str("get") {
        Command::Get
    } else {
        Command::Say(line)
    }
}

} // verus!
