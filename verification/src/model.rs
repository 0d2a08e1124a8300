use vstd::prelude::*;
use crate::event::{Decoded, Polled, Pulled, PullStep};

verus! {

/// Where a stream stands between two calls.
pub enum StreamState {
    /// Nothing is left to yield, and nothing ever will be.
    Exhausted,
    /// The stream holds a handle positioned on the entry to yield next.
    Holding(idb::Cursor),
    /// An advancement is outstanding; the handle is with it.
    Advancing,
}

impl StreamState {
    /// The state of a stream made from `cursor`.
    pub open spec fn fresh(cursor: Option<idb::Cursor>) -> StreamState {
        match cursor {
            Some(handle) => StreamState::Holding(handle),
            None => StreamState::Exhausted,
        }
    }

    /// The handle held, if any.
    pub open spec fn handle(self) -> Option<idb::Cursor> {
        match self {
            StreamState::Holding(handle) => Some(handle),
            _ => None,
        }
    }
}

/// The start of a pull: the next state and what is asked of the driver.
///
/// An outstanding advancement is resumed, never doubled. A handle that is held
/// is given up to a new advancement.
pub open spec fn begin(s: StreamState) -> (StreamState, PullStep) {
    match s {
        StreamState::Advancing => (StreamState::Advancing, PullStep::Resume),
        StreamState::Exhausted => (StreamState::Exhausted, PullStep::Finished),
        StreamState::Holding(handle) => (StreamState::Advancing, PullStep::Start(handle)),
    }
}

/// The end of a pull whose advancement is outstanding, given what the driver
/// found: the next state and what the pull yields.
///
/// A value is yielded only when the advancement settled and the codec read the
/// value; the stream then goes on with the handle that came back. A failure,
/// an empty position and an unreadable value all end the stream for good.
pub open spec fn end<V>(s: StreamState, polled: Polled<V>) -> (StreamState, Pulled<V>) {
    match polled {
        Polled::NotReady => (s, Pulled::Pending),
        Polled::Failed => (StreamState::Exhausted, Pulled::Ready(None)),
        Polled::Settled { next, decoded } => match decoded {
            Decoded::Value(value) => (StreamState::fresh(next), Pulled::Ready(Some(value))),
            Decoded::Empty => (StreamState::Exhausted, Pulled::Ready(None)),
            Decoded::Invalid => (StreamState::Exhausted, Pulled::Ready(None)),
        },
    }
}

/// One whole pull: its start and, unless the stream was exhausted, its end
/// with what the driver found.
pub open spec fn pull<V>(s: StreamState, polled: Polled<V>) -> (StreamState, Pulled<V>) {
    let (started, step) = begin(s);
    match step {
        PullStep::Finished => (started, Pulled::Ready(None)),
        _ => end(started, polled),
    }
}

/// A run of pulls, one after the other, the `i`-th with `answers[i]` as what
/// the driver found: the state after the last pull, and what the pulls
/// yielded, in order.
pub open spec fn run<V>(s: StreamState, answers: Seq<Polled<V>>) -> (StreamState, Seq<Pulled<V>>)
    decreases answers.len(),
{
    if answers.len() == 0 {
        (s, Seq::empty())
    } else {
        let (next, pulled) = pull(s, answers[0]);
        let (last, rest) = run(next, answers.drop_first());
        (last, seq![pulled] + rest)
    }
}

} // verus!
