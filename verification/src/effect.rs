//! What the bridge asks the program around it to do.
//!
//! The functions of this crate touch neither files nor streams. They return
//! effects, in the order in which they are to be performed, and the caller
//! performs each one to completion before the next.

use vstd::prelude::*;

verus! {

/// One action on the outside world.
#[derive(Debug, PartialEq, Eq)]
pub enum Effect {
    /// Print an informational line on the console.
    Status { line: String },
    /// Print a line on the operator's error stream.
    Diagnostic { line: String },
    /// Open the log file at `path` for appending, creating it if it is
    /// absent, and keep it under `handle`. A file that cannot be opened
    /// ends the program.
    OpenLog { handle: usize, path: String },
    /// Append `bytes` to the log file kept under `handle` and flush it.
    Append { handle: usize, bytes: Vec<u8> },
    /// Write `bytes` to the console and flush it.
    Console { bytes: Vec<u8> },
}

/// The mathematical content of an [`Effect`].
pub enum EffectView {
    Status { line: Seq<char> },
    Diagnostic { line: Seq<char> },
    OpenLog { handle: int, path: Seq<char> },
    Append { handle: int, bytes: Seq<u8> },
    Console { bytes: Seq<u8> },
}

impl View for Effect {
    type V = EffectView;

    open spec fn view(&self) -> EffectView {
        match *self {
            Effect::Status { line } => EffectView::Status { line: line@ },
            Effect::Diagnostic { line } => EffectView::Diagnostic { line: line@ },
            Effect::OpenLog { handle, path } => EffectView::OpenLog {
                handle: handle as int,
                path: path@,
            },
            Effect::Append { handle, bytes } => EffectView::Append {
                handle: handle as int,
                bytes: bytes@,
            },
            Effect::Console { bytes } => EffectView::Console { bytes: bytes@ },
        }
    }
}

/// The contents of a list of effects, in order.
pub open spec fn views(effects: Seq<Effect>) -> Seq<EffectView> {
    effects.map_values(|e: Effect| e@)
}

/// The bytes that a list of effects appends to the log file under `handle`,
/// in the order in which they reach the file.
pub open spec fn appended(effects: Seq<EffectView>, handle: int) -> Seq<u8>
    decreases effects.len(),
{
    if effects.len() == 0 {
        Seq::empty()
    } else {
        appended(effects.drop_last(), handle) + match effects.last() {
            EffectView::Append { handle: h, bytes } if h == handle => bytes,
            _ => Seq::empty(),
        }
    }
}

/// The number of append operations in a list of effects.
pub open spec fn append_count(effects: Seq<EffectView>) -> nat
    decreases effects.len(),
{
    if effects.len() == 0 {
        0
    } else {
        append_count(effects.drop_last()) + if effects.last() is Append {
            1nat
        } else {
            0nat
        }
    }
}

/// The diagnostic lines in a list of effects, in order.
pub open spec fn diagnostics(effects: Seq<EffectView>) -> Seq<Seq<char>>
    decreases effects.len(),
{
    if effects.len() == 0 {
        Seq::empty()
    } else {
        diagnostics(effects.drop_last()) + match effects.last() {
            EffectView::Diagnostic { line } => seq![line],
            _ => Seq::empty(),
        }
    }
}

/// What two lists of effects do to a log file, one list after the other, is
/// what each does, joined.
pub proof fn lemma_appended_concat(first: Seq<EffectView>, second: Seq<EffectView>, handle: int)
    ensures
        appended(first + second, handle) == appended(first, handle) + appended(second, handle),
    decreases second.len(),
{
    if second.len() > 0 {
        lemma_appended_concat(first, second.drop_last(), handle);
        assert((first + second).drop_last() =~= first + second.drop_last());
    }
}

/// Two lists of effects, one after the other, hold as many append operations
/// as both together.
pub proof fn lemma_append_count_concat(first: Seq<EffectView>, second: Seq<EffectView>)
    ensures
        append_count(first + second) == append_count(first) + append_count(second),
    decreases second.len(),
{
    if second.len() > 0 {
        lemma_append_count_concat(first, second.drop_last());
        assert((first + second).drop_last() =~= first + second.drop_last());
    }
}

} // verus!
