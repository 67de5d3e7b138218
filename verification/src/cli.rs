//! The terminal loop's exit rule.

use vstd::prelude::*;

verus! {

/// Decides whether a line read from the terminal ends the conversation
/// loop: an empty line does, and so do the literal commands `exit` and
/// `quit`. Anything else becomes the next prompt.
pub fn is_exit_command(prompt: &String) -> (r: bool)
    ensures
        r == (prompt@.len() == 0 || prompt@ == "exit"@ || prompt@ == "quit"@),
{
    prompt.as_str().is_empty() || *prompt == String::from_str("exit") || *prompt
        == String::from_str("quit")
}

} // verus!
