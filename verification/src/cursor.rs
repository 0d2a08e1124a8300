use vstd::prelude::*;
use core::marker::PhantomData;
use crate::event::{Decoded, Polled, Pulled, PullStep, Write};
use crate::model::{self, begin, end, StreamState};

verus! {

/// A lazy sequence of the values under a cursor of the store.
///
/// The stream does no I/O of its own. Each pull is a `begin_pull`, the work
/// that it asks of the driver, and an `end_pull` with what the driver found.
pub struct CursorStream<V> {
    state: StreamState,
    marker: PhantomData<V>,
}

impl<V> CursorStream<V> {
    /// Where the stream stands.
    pub closed spec fn view(&self) -> StreamState {
        self.state
    }

    /// A stream over the range of `cursor`, from its position on. Without a
    /// handle the stream is exhausted from the start.
    pub fn new(cursor: Option<idb::Cursor>) -> (stream: Self)
        ensures
            stream@ == StreamState::fresh(cursor),
    {
        let state = match cursor {
            Some(handle) => StreamState::Holding(handle),
            None => StreamState::Exhausted,
        };
        CursorStream { state, marker: PhantomData }
    }

    /// Starts a pull.
    pub fn begin_pull(&mut self) -> (step: PullStep)
        ensures
            (final(self)@, step) == begin(old(self)@),
    {
        let mut taken = StreamState::Advancing;
        core::mem::swap(&mut self.state, &mut taken);
        match taken {
            StreamState::Advancing => PullStep::Resume,
            StreamState::Exhausted => {
                self.state = StreamState::Exhausted;
                PullStep::Finished
            },
            StreamState::Holding(handle) => PullStep::Start(handle),
        }
    }

    /// Ends a pull that `begin_pull` did not finish, with what the driver
    /// found of the advancement that is outstanding.
    pub fn end_pull(&mut self, polled: Polled<V>) -> (pulled: Pulled<V>)
        requires
            old(self)@ is Advancing,
        ensures
            (final(self)@, pulled) == end(old(self)@, polled),
    {
        match polled {
            Polled::NotReady => Pulled::Pending,
            Polled::Failed => {
                self.state = StreamState::Exhausted;
                Pulled::Ready(None)
            },
            Polled::Settled { next, decoded } => match decoded {
                Decoded::Value(value) => {
                    self.state = match next {
                        Some(handle) => StreamState::Holding(handle),
                        None => StreamState::Exhausted,
                    };
                    Pulled::Ready(Some(value))
                },
                Decoded::Empty => {
                    self.state = StreamState::Exhausted;
                    Pulled::Ready(None)
                },
                Decoded::Invalid => {
                    self.state = StreamState::Exhausted;
                    Pulled::Ready(None)
                },
            },
        }
    }

    /// One whole pull. Unless the stream is exhausted, `drive` is called once,
    /// with what the pull asks for, and what it finds ends the pull.
    pub fn pull<F>(&mut self, drive: F) -> (pulled: Pulled<V>) where F: FnOnce(PullStep) -> Polled<V>
        requires
            old(self)@ !is Exhausted ==> call_requires(drive, (begin(old(self)@).1,)),
        ensures
            old(self)@ is Exhausted ==> final(self)@ is Exhausted && pulled == Pulled::Ready(
                None::<V>,
            ),
            old(self)@ !is Exhausted ==> exists|polled: Polled<V>|
                call_ensures(drive, (begin(old(self)@).1,), polled) && (final(self)@, pulled)
                    == model::pull(old(self)@, polled),
    {
        match self.begin_pull() {
            PullStep::Finished => Pulled::Ready(None),
            step => {
                let polled = drive(step);
                let ghost found = polled;
                let pulled = self.end_pull(polled);
                assert((self@, pulled) == model::pull(old(self)@, found));
                pulled
            },
        }
    }

    /// Whether nothing is left to yield.
    pub fn is_exhausted(&self) -> (exhausted: bool)
        ensures
            exhausted == (self@ is Exhausted),
    {
        match &self.state {
            StreamState::Exhausted => true,
            _ => false,
        }
    }

    /// Whether an advancement is outstanding.
    pub fn is_advancing(&self) -> (advancing: bool)
        ensures
            advancing == (self@ is Advancing),
    {
        match &self.state {
            StreamState::Advancing => true,
            _ => false,
        }
    }

    /// What to ask of the store so that the entry under the cursor holds
    /// `new_value`. Without a handle there is no entry to write to, and
    /// nothing is asked.
    pub fn update_value<'a>(&'a self, new_value: &'a V) -> (write: Write<'a, V>)
        ensures
            self@.handle() is None ==> write is Skip,
            self@.handle() matches Some(handle) ==> (write matches Write::Update { target, value }
                && *target == handle && *value == *new_value),
    {
        match &self.state {
            StreamState::Holding(handle) => Write::Update { target: handle, value: new_value },
            _ => Write::Skip,
        }
    }

    /// What to ask of the store so that the entry under the cursor is
    /// removed. Without a handle there is no entry to remove, and nothing is
    /// asked.
    pub fn delete_value<'a>(&'a self) -> (write: Write<'a, V>)
        ensures
            self@.handle() is None ==> write is Skip,
            self@.handle() matches Some(handle) ==> (write matches Write::Delete { target }
                && *target == handle),
    {
        match &self.state {
            StreamState::Holding(handle) => Write::Delete { target: handle },
            _ => Write::Skip,
        }
    }
}

} // verus!
