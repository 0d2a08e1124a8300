use vstd::prelude::*;
use crate::store::Advanced;

verus! {

/// What a stream asks of its driver at the start of a pull.
pub enum PullStep {
    /// An advancement from an earlier pull is still outstanding: poll it
    /// again, and start nothing new.
    Resume,
    /// Nothing is left: the pull is over and yields completion.
    Finished,
    /// Start an advancement on this handle, which the stream gives up until
    /// the advancement is over.
    Start(idb::Cursor),
}

/// What the codec made of a raw value.
pub enum Decoded<V> {
    /// The raw value was the store's empty sentinel: no entry at this position.
    Empty,
    /// The raw value could not be read as a `V`.
    Invalid,
    /// The raw value, as a `V`.
    Value(V),
}

/// What the driver found when it polled the outstanding advancement.
pub enum Polled<V> {
    /// The store has not answered yet.
    NotReady,
    /// Reading the value or advancing failed, and not because the range ended.
    Failed,
    /// The advancement is over: the handle to go on with, if any, and the
    /// decoding of the value that was read.
    Settled { next: Option<idb::Cursor>, decoded: Decoded<V> },
}

impl<V> Decoded<V> {
    /// Reads a raw value, given whether it is the store's empty sentinel. The
    /// sentinel is never shown to the codec; any other value is what `codec`
    /// makes of it, and `Invalid` where the codec cannot read it.
    pub fn read_unless<F>(empty: bool, raw: wasm_bindgen::JsValue, codec: F) -> (decoded: Decoded<
        V,
    >) where F: FnOnce(wasm_bindgen::JsValue) -> Option<V>
        requires
            !empty ==> call_requires(codec, (raw,)),
        ensures
            empty ==> decoded is Empty,
            !empty ==> exists|read: Option<V>|
                call_ensures(codec, (raw,), read) && (read is None ==> decoded is Invalid) && (
                read matches Some(value) ==> decoded == Decoded::Value(value)),
    {
        if empty {
            Decoded::Empty
        } else {
            let read = codec(raw);
            let ghost found = read;
            let decoded = match read {
                Some(value) => Decoded::Value(value),
                None => Decoded::Invalid,
            };
            assert(call_ensures(codec, (raw,), found) && (found is None ==> decoded is Invalid)
                && (found matches Some(value) ==> decoded == Decoded::Value(value)));
            decoded
        }
    }
}

impl<V> Polled<V> {
    /// What the driver hands on when the advancement is over with `outcome`
    /// and the codec made `decoded` of the value read.
    pub open spec fn of(outcome: Advanced, decoded: Decoded<V>) -> Polled<V> {
        match outcome {
            Ok((next, _)) => Polled::Settled { next, decoded },
            Err(_) => Polled::Failed,
        }
    }

    /// Turns the outcome of an advancement into what `end_pull` takes. The
    /// codec is consulted only when there is a value: a failed advancement is
    /// `Failed` whatever the codec would say.
    pub fn settled<F>(outcome: Advanced, decode: F) -> (polled: Polled<V>) where
        F: FnOnce(wasm_bindgen::JsValue) -> Decoded<V>,

        requires
            outcome matches Ok((_, raw)) ==> call_requires(decode, (raw,)),
        ensures
            outcome is Err ==> polled == Polled::<V>::Failed,
            outcome matches Ok((next, raw)) ==> (polled matches Polled::Settled {
                next: kept,
                decoded,
            } && kept == next && call_ensures(decode, (raw,), decoded)),
    {
        match outcome {
            Ok((next, raw)) => Polled::Settled { next, decoded: decode(raw) },
            Err(_) => Polled::Failed,
        }
    }
}

/// How a pull ends.
pub enum Pulled<V> {
    /// The pull is suspended until the store answers.
    Pending,
    /// The pull is over: a value, or completion.
    Ready(Option<V>),
}

/// What `update_value` and `delete_value` ask of the store.
pub enum Write<'a, V> {
    /// Nothing: no entry is under the cursor, and the store is not contacted.
    Skip,
    /// Overwrite the entry under `target` with `value`, encoded.
    Update { target: &'a idb::Cursor, value: &'a V },
    /// Remove the entry under `target`.
    Delete { target: &'a idb::Cursor },
}

} // verus!
