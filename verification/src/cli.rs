//! The interactive command loop: what each line typed at the prompt asks for.
use crate::text::{chars_of, eq_ignore_ascii_case, eq_ignore_case, split_whitespace, string_of, trim, trim_chars, words};
use vstd::prelude::*;

verus! {

/// What a line read at the prompt asks for.
#[derive(Clone, Debug, PartialEq)]
pub enum ReplInput {
    /// Stop: end of input, or `exit` in any case.
    Exit,
    /// Nothing: a blank line.
    Skip,
    /// A command, as the argument list a command-line parser takes (program name first).
    Command(Vec<String>),
}

/// The argument list of a command line: the program name `germina`, then the line's
/// words.
pub open spec fn command_argv(line: Seq<char>) -> Seq<Seq<char>> {
    seq!["germina"@] + words(trim(line))
}

/// Classifies what was read at the prompt; `None` is the end of input.
pub fn classify_repl_line(line: Option<&str>) -> (r: ReplInput)
    ensures
        match line {
            None => r is Exit,
            Some(l) => if trim(l@).len() == 0 {
                r is Skip
            } else if eq_ignore_case(trim(l@), "exit"@) {
                r is Exit
            } else {
                r is Command && r->Command_0@.map_values(|w: String| w@) == command_argv(l@)
            },
        },
{
    let l = match line {
        None => {
            return ReplInput::Exit;
        },
        Some(l) => l,
    };
    let input = string_of(&trim_chars(&chars_of(l)));
    if chars_of(input.as_str()).len() == 0 {
        return ReplInput::Skip;
    }
    if eq_ignore_ascii_case(input.as_str(), "exit") {
        return ReplInput::Exit;
    }
    let mut argv: Vec<String> = Vec::new();
    argv.push(String::from_str("germina"));
    let mut rest = split_whitespace(input.as_str());
    let ghost first = argv@;
    let ghost ws = rest@;
    argv.append(&mut rest);
    assert(argv@ =~= first + ws);
    assert(argv@.map_values(|w: String| w@) =~= seq!["germina"@] + ws.map_values(|w: String| w@));
    ReplInput::Command(argv)
}

} // verus!
