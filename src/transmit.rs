//! The link-layer sequence of one DMX512 transmission: break, mark after
//! break, then the frame, stopping at the first failed step. The caller owns
//! the serial link: it performs each requested action and reports whether it
//! succeeded.
use vstd::prelude::*;

verus! {

/// Line rate of a DMX512 link, in bits per second.
pub const DMX_BAUD_RATE: u32 = 250_000;

/// Shortest break the protocol allows, in microseconds.
pub const MIN_BREAK_MICROS: u64 = 88;

/// Break held before each frame, in microseconds.
pub const BREAK_MICROS: u64 = 100;

/// Shortest mark after break the protocol allows, in microseconds.
pub const MIN_MARK_AFTER_BREAK_MICROS: u64 = 8;

/// Mark after break held before the frame is written, in microseconds.
pub const MARK_AFTER_BREAK_MICROS: u64 = 12;

/// Failure of a transmission.
#[derive(Clone, Copy, Debug, PartialEq, Eq, Structural)]
pub enum TransmitError {
    /// The serial link failed to assert or clear the break, or to write.
    Io,
}

/// How far a transmission has got: the action it last requested, or its end.
#[derive(Clone, Copy, Debug, PartialEq, Eq, Structural)]
pub enum TransmitPhase {
    /// Nothing requested yet.
    Idle,
    /// The break was requested.
    SettingBreak,
    /// The break is being held.
    HoldingBreak,
    /// The end of the break was requested.
    ClearingBreak,
    /// The mark after break is being held.
    HoldingMark,
    /// The frame write was requested.
    Writing,
    /// The frame went out.
    Done,
    /// A step failed; nothing more is attempted.
    Failed,
}

/// What the caller is to do on the serial link next.
#[derive(Clone, Copy, Debug, PartialEq, Eq)]
pub enum LinkAction {
    /// Assert a break on the line.
    SetBreak,
    /// Block for this many microseconds.
    Wait(u64),
    /// Release the break.
    ClearBreak,
    /// Write the whole frame in one piece.
    WriteFrame,
    /// The transmission is over, with this result.
    Finish(Result<(), TransmitError>),
}

/// The next phase and action, given the phase reached and whether the
/// action it requested succeeded (a wait always does).
pub open spec fn spec_next_step(phase: TransmitPhase, succeeded: bool) -> (TransmitPhase, LinkAction) {
    match phase {
        TransmitPhase::Idle => (TransmitPhase::SettingBreak, LinkAction::SetBreak),
        TransmitPhase::Done => (TransmitPhase::Done, LinkAction::Finish(Ok(()))),
        TransmitPhase::Failed => (TransmitPhase::Failed, LinkAction::Finish(Err(TransmitError::Io))),
        _ => if !succeeded {
            (TransmitPhase::Failed, LinkAction::Finish(Err(TransmitError::Io)))
        } else {
            match phase {
                TransmitPhase::SettingBreak => (TransmitPhase::HoldingBreak, LinkAction::Wait(BREAK_MICROS)),
                TransmitPhase::HoldingBreak => (TransmitPhase::ClearingBreak, LinkAction::ClearBreak),
                TransmitPhase::ClearingBreak => (
                    TransmitPhase::HoldingMark,
                    LinkAction::Wait(MARK_AFTER_BREAK_MICROS),
                ),
                TransmitPhase::HoldingMark => (TransmitPhase::Writing, LinkAction::WriteFrame),
                _ => (TransmitPhase::Done, LinkAction::Finish(Ok(()))),
            }
        },
    }
}

/// Advances a transmission by one step.
pub fn next_step(phase: TransmitPhase, succeeded: bool) -> (r: (TransmitPhase, LinkAction))
    ensures
        r == spec_next_step(phase, succeeded),
{
    match phase {
        TransmitPhase::Idle => (TransmitPhase::SettingBreak, LinkAction::SetBreak),
        TransmitPhase::Done => (TransmitPhase::Done, LinkAction::Finish(Ok(()))),
        TransmitPhase::Failed => (TransmitPhase::Failed, LinkAction::Finish(Err(TransmitError::Io))),
        _ => {
            if !succeeded {
                return (TransmitPhase::Failed, LinkAction::Finish(Err(TransmitError::Io)));
            }
            match phase {
                TransmitPhase::SettingBreak => (TransmitPhase::HoldingBreak, LinkAction::Wait(BREAK_MICROS)),
                TransmitPhase::HoldingBreak => (TransmitPhase::ClearingBreak, LinkAction::ClearBreak),
                TransmitPhase::ClearingBreak => (
                    TransmitPhase::HoldingMark,
                    LinkAction::Wait(MARK_AFTER_BREAK_MICROS),
                ),
                TransmitPhase::HoldingMark => (TransmitPhase::Writing, LinkAction::WriteFrame),
                _ => (TransmitPhase::Done, LinkAction::Finish(Ok(()))),
            }
        },
    }
}

/// A transmission in which every step succeeds asserts the break, holds it
/// at least the protocol minimum, releases it, holds the mark after break at
/// least the protocol minimum, writes the frame and ends in success.
pub proof fn lemma_successful_sequence()
    ensures
        spec_next_step(TransmitPhase::Idle, true) == (TransmitPhase::SettingBreak, LinkAction::SetBreak),
        spec_next_step(TransmitPhase::SettingBreak, true) == (
            TransmitPhase::HoldingBreak,
            LinkAction::Wait(BREAK_MICROS),
        ),
        BREAK_MICROS >= MIN_BREAK_MICROS,
        spec_next_step(TransmitPhase::HoldingBreak, true) == (
            TransmitPhase::ClearingBreak,
            LinkAction::ClearBreak,
        ),
        spec_next_step(TransmitPhase::ClearingBreak, true) == (
            TransmitPhase::HoldingMark,
            LinkAction::Wait(MARK_AFTER_BREAK_MICROS),
        ),
        MARK_AFTER_BREAK_MICROS >= MIN_MARK_AFTER_BREAK_MICROS,
        spec_next_step(TransmitPhase::HoldingMark, true) == (TransmitPhase::Writing, LinkAction::WriteFrame),
        spec_next_step(TransmitPhase::Writing, true) == (
            TransmitPhase::Done,
            LinkAction::Finish(Ok(())),
        ),
{
}

/// A failed step ends the transmission with an I/O error and no retry: the
/// failed phase only ever finishes with that error again.
pub proof fn lemma_failure_is_final(phase: TransmitPhase, succeeded: bool)
    requires
        phase != TransmitPhase::Idle,
        phase != TransmitPhase::Done,
    ensures
        spec_next_step(phase, false) == (
            TransmitPhase::Failed,
            LinkAction::Finish(Err(TransmitError::Io)),
        ),
        spec_next_step(TransmitPhase::Failed, succeeded) == (
            TransmitPhase::Failed,
            LinkAction::Finish(Err(TransmitError::Io)),
        ),
{
}

} // verus!
