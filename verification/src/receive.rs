//! The receive path's decisions. Reading from the stream is the caller's
//! work; what to make of each read is decided here.
//!
//! A receive is two reads: the two bytes of the header, then as many bytes
//! as the header announces. A read that ran out of time ends the receive
//! with nothing and leaves the connection usable. Any other failure of a
//! read is fatal to the connection. A payload that arrived whole and does
//! not decode is an error of that one frame: it has been consumed, and the
//! stream is in step for the next.

use crate::error::{FlicError, UnmarshalErrorView};
use crate::events::{spec_unmarshal, unmarshal, Event, EventView, Opcode};
use crate::frame::{payload_len, spec_payload_len};
use vstd::prelude::*;

verus! {

/// How an attempt to fill a buffer from the stream ended.
#[derive(Debug)]
pub enum ReadOutcome {
    /// The buffer was filled.
    Filled,
    /// The read deadline passed, or the stream had nothing yet.
    TimedOut,
    /// The stream failed.
    Failed(std::io::Error),
}

/// Decides what follows the read of a header: `Some(n)` to go on and read a
/// payload of `n` bytes, `None` when the read ran out of time, the stream's
/// error when it failed.
pub fn after_header(outcome: ReadOutcome, header: &[u8; 2]) -> (r: Result<Option<usize>, FlicError>)
    ensures
        match outcome {
            ReadOutcome::Filled => r == Ok::<Option<usize>, FlicError>(
                Some(spec_payload_len(header@) as usize),
            ),
            ReadOutcome::TimedOut => r == Ok::<Option<usize>, FlicError>(None),
            ReadOutcome::Failed(err) => r == Err::<Option<usize>, FlicError>(FlicError::FlicD(err)),
        },
{
    match outcome {
        ReadOutcome::Filled => Ok(Some(payload_len(header))),
        ReadOutcome::TimedOut => Ok(None),
        ReadOutcome::Failed(err) => Err(FlicError::FlicD(err)),
    }
}

/// What a receive gives once the read of the payload has ended as `outcome`:
/// the decoded event, nothing, a decode error, or the stream's error (which
/// has no plain form, and stands here as `None` on the error side).
pub open spec fn spec_after_payload(outcome: ReadOutcome, payload: Seq<u8>) -> Result<
    Option<(EventView, Opcode)>,
    Option<UnmarshalErrorView>,
> {
    match outcome {
        ReadOutcome::Filled => match spec_unmarshal(payload) {
            Ok(pair) => Ok(Some(pair)),
            Err(e) => Err(Some(e)),
        },
        ReadOutcome::TimedOut => Ok(None),
        ReadOutcome::Failed(_) => Err(None),
    }
}

/// Decides what a receive returns once the read of the payload has ended.
pub fn after_payload(outcome: ReadOutcome, payload: &[u8]) -> (r: Result<
    Option<(Event, Opcode)>,
    FlicError,
>)
    ensures
        match r {
            Ok(Some(pair)) => spec_after_payload(outcome, payload@) == Ok::<
                Option<(EventView, Opcode)>,
                Option<UnmarshalErrorView>,
            >(Some(pair@)),
            Ok(None) => outcome is TimedOut,
            Err(FlicError::Unmarshal(e)) => spec_after_payload(outcome, payload@) == Err::<
                Option<(EventView, Opcode)>,
                Option<UnmarshalErrorView>,
            >(Some(e@)),
            Err(FlicError::FlicD(err)) => outcome == ReadOutcome::Failed(err),
            Err(FlicError::Generic(_)) => false,
        },
{
    match outcome {
        ReadOutcome::Filled => match unmarshal(payload) {
            Ok(pair) => Ok(Some(pair)),
            Err(e) => Err(e),
        },
        ReadOutcome::TimedOut => Ok(None),
        ReadOutcome::Failed(err) => Err(FlicError::FlicD(err)),
    }
}

} // verus!
