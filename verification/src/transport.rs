//! Outcomes of the input/output operations that a driver performs on behalf of the
//! state machines of this crate.

use vstd::prelude::*;

verus! {

/// What became of one input/output operation (open, connect, write, flush or read).
#[derive(Debug, Clone, PartialEq, Eq)]
pub enum IoOutcome {
    /// The operation completed. For a read the field holds the bytes received; for every
    /// other operation it is ignored.
    Done(Vec<u8>),
    /// The operation ran into the time limit of its transport.
    TimedOut,
    /// The operation failed for the given reason.
    Failed(String),
}

/// Mathematical model of an [`IoOutcome`].
pub enum IoOutcomeView {
    Done(Seq<u8>),
    TimedOut,
    Failed(Seq<char>),
}

impl View for IoOutcome {
    type V = IoOutcomeView;

    open spec fn view(&self) -> IoOutcomeView {
        match self {
            IoOutcome::Done(bytes) => IoOutcomeView::Done(bytes@),
            IoOutcome::TimedOut => IoOutcomeView::TimedOut,
            IoOutcome::Failed(reason) => IoOutcomeView::Failed(reason@),
        }
    }
}

} // verus!
