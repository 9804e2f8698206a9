//! Small helpers: line endings, paths below a directory, and what becomes
//! of a stale file.

use crate::errors::{Errors, ErrorsView};
use vstd::prelude::*;

verus! {

/// The text without one trailing line ending: a final `"\r\n"` is removed
/// whole, else a final `'\n'`, else nothing.
pub open spec fn stripped(s: Seq<char>) -> Seq<char> {
    if s.len() >= 2 && s[s.len() - 2] == '\r' && s[s.len() - 1] == '\n' {
        s.subrange(0, s.len() - 2)
    } else if s.len() >= 1 && s[s.len() - 1] == '\n' {
        s.subrange(0, s.len() - 1)
    } else {
        s
    }
}

/// Removes one trailing line ending (`"\r\n"` or `'\n'`) if there is one.
pub fn strip_trailing_newline(input: &str) -> (out: &str)
    ensures
        out@ == stripped(input@),
{
    let n: usize = input.unicode_len();
    if n >= 2 && input.get_char(n - 2) == '\r' && input.get_char(n - 1) == '\n' {
        input.substring_char(0, n - 2)
    } else if n >= 1 && input.get_char(n - 1) == '\n' {
        input.substring_char(0, n - 1)
    } else {
        input
    }
}

/// The kind of machine the program runs on.
#[derive(Clone, Copy, Debug, PartialEq, Eq, Structural)]
pub enum Platform {
    Windows,
    Other,
}

/// The character that the platform writes between the parts of a path.
pub open spec fn separator(platform: Platform) -> char {
    match platform {
        Platform::Windows => '\\',
        Platform::Other => '/',
    }
}

/// Whether the platform takes `c` for a boundary between the parts of a path.
pub open spec fn is_separator(c: char, platform: Platform) -> bool {
    c == '/' || (platform == Platform::Windows && c == '\\')
}

/// The path of `name` directly below `dir`: `dir`, a separator unless `dir`
/// is empty or ends with one already, then `name`.
pub open spec fn joined(dir: Seq<char>, name: Seq<char>, platform: Platform) -> Seq<char> {
    if dir.len() == 0 || is_separator(dir.last(), platform) {
        dir + name
    } else {
        dir.push(separator(platform)) + name
    }
}

/// The path of `name` directly below `dir`.
pub fn join(dir: &str, name: &str, platform: Platform) -> (out: String)
    ensures
        out@ == joined(dir@, name@, platform),
{
    let n: usize = dir.unicode_len();
    let mut out = String::from_str(dir);
    if n > 0 {
        let last = dir.get_char(n - 1);
        let closed = last == '/' || (platform == Platform::Windows && last == '\\');
        if !closed {
            proof {
                reveal_strlit("\\");
                reveal_strlit("/");
            }
            match platform {
                Platform::Windows => out.append("\\"),
                Platform::Other => out.append("/"),
            }
        }
    }
    out.append(name);
    out
}

/// What a look at a path found.
#[derive(Clone, Copy, Debug, PartialEq, Eq, Structural)]
pub enum Probe {
    /// Something is there.
    Present,
    /// Nothing is there.
    Absent,
    /// The look itself failed.
    Unknown,
}

/// How an attempt to change something on the machine ended.
#[derive(Clone, Debug, PartialEq, Eq)]
pub enum Outcome {
    Done,
    Failed(String),
}

/// An [`Outcome`] as plain data.
pub enum OutcomeView {
    Done,
    Failed(Seq<char>),
}

impl View for Outcome {
    type V = OutcomeView;

    open spec fn view(&self) -> OutcomeView {
        match *self {
            Outcome::Done => OutcomeView::Done,
            Outcome::Failed(m) => OutcomeView::Failed(m@),
        }
    }
}

/// Whether a file that a probe reported on has to be removed: only one that
/// is known to be there.
pub open spec fn needs_removal(probe: Probe) -> bool {
    probe == Probe::Present
}

/// What clearing a path comes to, given the probe and, where the probe
/// called for a removal, how that went. A file that is not there, or that
/// could not be looked for, is no failure; a removal that failed is.
pub open spec fn deletion(probe: Probe, removal: OutcomeView) -> Result<(), ErrorsView> {
    if needs_removal(probe) {
        match removal {
            OutcomeView::Done => Ok(()),
            OutcomeView::Failed(m) => Err(ErrorsView::DeleteFileError(m)),
        }
    } else {
        Ok(())
    }
}

/// Whether the file that `probe` reported on has to be removed.
pub fn must_delete(probe: Probe) -> (out: bool)
    ensures
        out == needs_removal(probe),
{
    probe == Probe::Present
}

/// The result of clearing a path. `removal` counts only where the probe
/// found the file.
pub fn delete_file(probe: Probe, removal: Outcome) -> (out: Result<(), Errors>)
    ensures
        match out {
            Ok(_) => deletion(probe, removal@) == Ok::<(), ErrorsView>(()),
            Err(e) => deletion(probe, removal@) == Err::<(), ErrorsView>(e@),
        },
{
    if must_delete(probe) {
        match removal {
            Outcome::Done => Ok(()),
            Outcome::Failed(m) => Err(Errors::DeleteFileError(m)),
        }
    } else {
        Ok(())
    }
}

} // verus!
