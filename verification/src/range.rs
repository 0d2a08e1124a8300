use vstd::prelude::*;
use crate::event::{Decoded, Polled, Pulled};
use crate::model::StreamState;
use crate::store::{settled, AdvanceFailure};

verus! {

/// A key range of the store, as the driver of a stream meets it: what the
/// store holds and how it answers.
pub struct KeyRange<V> {
    /// The values of the entries as the codec reads them, in key order.
    pub entries: Seq<V>,
    /// The raw values of the entries.
    pub raws: Seq<wasm_bindgen::JsValue>,
    /// The cursor on each entry.
    pub handles: Seq<idb::Cursor>,
    /// How many polls the store leaves unanswered before it answers the
    /// advance from each entry.
    pub waits: Seq<nat>,
    /// Whether the store reports the end of the range as a failure to
    /// advance. Otherwise it answers the advance from the last entry without
    /// a cursor.
    pub reports_end: bool,
}

/// `n` polls that the store left unanswered.
pub open spec fn unanswered<V>(n: nat) -> Seq<Polled<V>> {
    Seq::new(n, |i: int| Polled::<V>::NotReady)
}

/// `n` pulls that were suspended.
pub open spec fn suspensions<V>(n: nat) -> Seq<Pulled<V>> {
    Seq::new(n, |i: int| Pulled::<V>::Pending)
}

/// `n` pulls that yielded completion.
pub open spec fn completions<V>(n: nat) -> Seq<Pulled<V>> {
    Seq::new(n, |i: int| Pulled::Ready(None::<V>))
}

impl<V> KeyRange<V> {
    /// Every entry has its raw value, its cursor and its delay.
    pub open spec fn wf(self) -> bool {
        &&& self.raws.len() == self.entries.len()
        &&& self.handles.len() == self.entries.len()
        &&& self.waits.len() == self.entries.len()
    }

    /// The state of a stream that was just made on this range: it holds the
    /// cursor on the first entry, or none if the range is empty.
    pub open spec fn opened(self) -> StreamState {
        StreamState::fresh(
            if self.entries.len() > 0 {
                Some(self.handles[0])
            } else {
                None
            },
        )
    }

    /// The state of a stream that stands on entry `at`, or past the last one.
    pub open spec fn standing(self, at: int) -> StreamState {
        if at < self.entries.len() {
            StreamState::Holding(self.handles[at])
        } else {
            StreamState::Exhausted
        }
    }

    /// The store's answer to an advance from entry `at`: the cursor on the
    /// next entry, or the end of the range.
    pub open spec fn advance(self, at: int) -> Result<Option<idb::Cursor>, AdvanceFailure> {
        if at + 1 < self.entries.len() {
            Ok(Some(self.handles[at + 1]))
        } else if self.reports_end {
            Err(AdvanceFailure::EndOfRange)
        } else {
            Ok(None)
        }
    }

    /// What the driver hands to the stream once the advancement from entry
    /// `at` is over.
    pub open spec fn answer(self, at: int) -> Polled<V> {
        Polled::of(settled(self.raws[at], self.advance(at)), Decoded::Value(self.entries[at]))
    }

    /// What the driver finds, poll after poll, while a stream goes through
    /// the range from entry `at` on: for each entry the polls that the store
    /// leaves unanswered, then its answer.
    pub open spec fn answers(self, at: int) -> Seq<Polled<V>>
        decreases self.entries.len() - at,
    {
        if 0 <= at < self.entries.len() {
            unanswered(self.waits[at]) + seq![self.answer(at)] + self.answers(at + 1)
        } else {
            Seq::empty()
        }
    }

    /// What the pulls are to yield from entry `at` on: for each entry one
    /// suspension for each unanswered poll, then the entry's value.
    pub open spec fn yields(self, at: int) -> Seq<Pulled<V>>
        decreases self.entries.len() - at,
    {
        if 0 <= at < self.entries.len() {
            suspensions(self.waits[at]) + seq![Pulled::Ready(Some(self.entries[at]))]
                + self.yields(at + 1)
        } else {
            Seq::empty()
        }
    }
}

} // verus!
