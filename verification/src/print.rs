//! The lines that the agent writes to the console, in their colors.

use colorama::Colored;
use vstd::prelude::*;
use vstd::string::*;

verus! {

/// What ends a colored stretch of text.
pub const RESET: &'static str = "\x1b[0m";

/// The escape sequence that starts text in the color of that name, for the
/// names that have one.
pub open spec fn escape_of(color: Seq<char>) -> Option<Seq<char>> {
    if color == "normal"@ {
        Some("\x1b[0m"@)
    } else if color == "black"@ {
        Some("\x1b[30m"@)
    } else if color == "red"@ {
        Some("\x1b[31m"@)
    } else if color == "green"@ {
        Some("\x1b[32m"@)
    } else if color == "yellow"@ {
        Some("\x1b[33m"@)
    } else if color == "blue"@ {
        Some("\x1b[34m"@)
    } else if color == "magenta"@ {
        Some("\x1b[35m"@)
    } else if color == "cyan"@ {
        Some("\x1b[36m"@)
    } else if color == "white"@ {
        Some("\x1b[37m"@)
    } else if color == "bright black"@ {
        Some("\x1b[90m"@)
    } else if color == "bright red"@ {
        Some("\x1b[91m"@)
    } else if color == "bright green"@ {
        Some("\x1b[92m"@)
    } else if color == "bright yellow"@ {
        Some("\x1b[93m"@)
    } else if color == "bright blue"@ {
        Some("\x1b[94m"@)
    } else if color == "bright magenta"@ {
        Some("\x1b[95m"@)
    } else if color == "bright cyan"@ {
        Some("\x1b[96m"@)
    } else if color == "bright white"@ {
        Some("\x1b[97m"@)
    } else {
        None
    }
}

/// `text` in the color of that name: between the color's escape sequence and
/// the reset, or as it stands where the name is no color.
pub open spec fn colored(text: Seq<char>, color: Seq<char>) -> Seq<char> {
    match escape_of(color) {
        Some(escape) => escape + text + RESET@,
        None => text,
    }
}

/// `colorama::Colored::color` on a `String`. The contract is taken from the
/// crate's source, not proved: for one of its seventeen color names the text
/// comes back with the escape sequence of the color before it and the reset
/// sequence behind it, for any other name it comes back unchanged.
#[verifier::external_body]
fn paint(text: String, name: &str) -> (painted: String)
    ensures
        painted@ == colored(text@, name@),
{
    let mut painted = text;
    painted.color(name);
    painted
}

/// The line that reports what the program does: `input` in blue.
pub fn info(input: &str) -> (line: String)
    ensures
        line@ == colored(input@, "blue"@),
{
    paint(String::from_str(input), "blue")
}

/// The line that shows what the agent says: an angle bracket, then `input` in
/// bright magenta.
pub fn monikai(input: &str) -> (line: String)
    ensures
        line@ == ">"@ + colored(input@, "bright magenta"@),
{
    let mut line = String::from_str(">");
    line.append(paint(String::from_str(input), "bright magenta").as_str());
    line
}

/// The line that reports a detail: `input` in square brackets, all in green.
pub fn debug(input: &str) -> (line: String)
    ensures
        line@ == colored("["@ + input@ + "]"@, "green"@),
{
    let mut bracketed = String::from_str("[");
    bracketed.append(input);
    bracketed.append("]");
    paint(bracketed, "green")
}

} // verus!
