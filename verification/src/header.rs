//! The header, or "status bar", that the shell shows before each line.

use crate::state::ShellState;
use vstd::prelude::*;
use vstd::string::*;

verus! {

/// The escape sequence that resets the terminal's colours and styles.
pub const RESET: &'static str = "\x1b[0m";

/// A header of the user's own making: from the state to the text to show.
pub trait Render {
    /// The text to show for `state`. The shell puts the terminal reset
    /// behind it.
    fn render(&self, state: &ShellState) -> String;
}

/// Which header the shell shows.
pub enum Header {
    /// The shell's name and the working directory, in colour.
    Builtin,
    /// Whatever the renderer makes of the state.
    Custom(Box<dyn Render>),
}

/// The built-in header for a shell in the directory `cwd`.
pub open spec fn builtin_text(cwd: Seq<char>) -> Seq<char> {
    "\x1b[38;5;93mzula\x1b[38;5;5m @ \x1b[38;5;93m"@ + cwd + " \x1b[0m-> "@
}

/// `head` with the terminal reset behind it.
pub open spec fn sealed(head: Seq<char>) -> Seq<char> {
    head + RESET@
}

/// Whether the last thing in `text` is a terminal reset.
pub open spec fn ends_with_reset(text: Seq<char>) -> bool {
    text.len() >= RESET@.len() && text.subrange(text.len() - RESET@.len(), text.len() as int)
        == RESET@
}

/// The built-in header: the shell's name and its working directory.
pub fn builtin_header(state: &ShellState) -> (head: String)
    ensures
        head@ == builtin_text(state.spec_cwd()),
{
    let mut head = "\x1b[38;5;93mzula\x1b[38;5;5m @ \x1b[38;5;93m".to_owned();
    head.append(state.get_cwd());
    head.append(" \x1b[0m-> ");
    head
}

/// Puts the terminal reset behind a header, whether or not the header
/// already ends in one.
pub fn seal(head: String) -> (out: String)
    ensures
        out@ == sealed(head@),
{
    let mut out = head;
    out.append(RESET);
    out
}

/// A sealed header ends with a terminal reset, whatever the header was.
pub proof fn law_sealed_ends_with_reset(head: Seq<char>)
    ensures
        ends_with_reset(sealed(head)),
        sealed(head).take(sealed(head).len() - RESET@.len()) == head,
{
    let out = sealed(head);
    assert(out.subrange(out.len() - RESET@.len(), out.len() as int) =~= RESET@);
    assert(out.take(out.len() - RESET@.len()) =~= head);
}

/// Sealing a header that does not itself end in a terminal reset leaves
/// exactly one at the end: what stands before it does not end in another.
pub proof fn law_sealed_ends_with_one_reset(head: Seq<char>)
    requires
        !ends_with_reset(head),
    ensures
        ends_with_reset(sealed(head)),
        !ends_with_reset(sealed(head).take(sealed(head).len() - RESET@.len())),
{
    law_sealed_ends_with_reset(head);
}

/// The built-in header does not end in a terminal reset, so sealed it ends
/// in exactly one.
pub proof fn law_builtin_header_ends_with_one_reset(cwd: Seq<char>)
    ensures
        !ends_with_reset(builtin_text(cwd)),
        ends_with_reset(sealed(builtin_text(cwd))),
{
    reveal_strlit("\x1b[0m");
    reveal_strlit(" \x1b[0m-> ");
    let text = builtin_text(cwd);
    let tail = " \x1b[0m-> "@;
    assert(text[text.len() - 1] == tail[tail.len() - 1]);
    if ends_with_reset(text) {
        let end = text.subrange(text.len() - RESET@.len(), text.len() as int);
        assert(end[RESET@.len() - 1] == text[text.len() - 1]);
        assert(false);
    }
    law_sealed_ends_with_reset(text);
}

} // verus!
