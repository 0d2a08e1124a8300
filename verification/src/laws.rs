use vstd::prelude::*;
use crate::event::{Decoded, Polled, Pulled, PullStep};
use crate::model::{begin, pull, run, StreamState};
use crate::range::{completions, suspensions, unanswered, KeyRange};
use crate::store::{classified, ends_range, settled, AdvanceFailure};

verus! {

/// A run over `first` and then `second` is the run over `first`, followed by
/// the run over `second` from where the first one ended.
pub proof fn lemma_run_splits<V>(s: StreamState, first: Seq<Polled<V>>, second: Seq<Polled<V>>)
    ensures
        run(s, first + second) == (
            run(run(s, first).0, second).0,
            run(s, first).1 + run(run(s, first).0, second).1,
        ),
    decreases first.len(),
{
    if first.len() == 0 {
        assert(first + second =~= second);
        assert(run(s, first).1 + run(s, second).1 =~= run(s, second).1);
    } else {
        let whole = first + second;
        let (next, pulled) = pull(s, first[0]);
        assert(whole[0] == first[0]);
        assert(whole.drop_first() =~= first.drop_first() + second);
        lemma_run_splits(next, first.drop_first(), second);
        let head = run(next, first.drop_first());
        let tail = run(head.0, second);
        assert(seq![pulled] + (head.1 + tail.1) =~= (seq![pulled] + head.1) + tail.1);
    }
}

/// An exhausted stream stays exhausted: every pull yields completion, whatever
/// the driver hands in.
pub proof fn lemma_exhausted_is_final<V>(answers: Seq<Polled<V>>)
    ensures
        run(StreamState::Exhausted, answers) == (
            StreamState::Exhausted,
            completions::<V>(answers.len()),
        ),
    decreases answers.len(),
{
    if answers.len() == 0 {
        assert(completions::<V>(0) =~= Seq::empty());
    } else {
        lemma_exhausted_is_final(answers.drop_first());
        assert(seq![Pulled::Ready(None::<V>)] + completions::<V>((answers.len() - 1) as nat)
            =~= completions::<V>(answers.len()));
    }
}

/// A stream made without a handle yields completion on the first pull and on
/// every pull after it.
pub proof fn lemma_no_handle_no_values<V>(answers: Seq<Polled<V>>)
    ensures
        run(StreamState::fresh(None), answers) == (
            StreamState::Exhausted,
            completions::<V>(answers.len()),
        ),
{
    lemma_exhausted_is_final(answers);
}

/// While the store does not answer, a stream that has something to yield is
/// suspended pull after pull, with its one advancement outstanding.
pub proof fn lemma_unanswered_suspends<V>(s: StreamState, n: nat)
    requires
        s !is Exhausted,
    ensures
        run(s, unanswered::<V>(n)) == (
            if n == 0 {
                s
            } else {
                StreamState::Advancing
            },
            suspensions::<V>(n),
        ),
    decreases n,
{
    if n == 0 {
        assert(suspensions::<V>(0) =~= Seq::empty());
    } else {
        let rest = (n - 1) as nat;
        assert(unanswered::<V>(n).drop_first() =~= unanswered::<V>(rest));
        lemma_unanswered_suspends::<V>(StreamState::Advancing, rest);
        assert(seq![Pulled::<V>::Pending] + suspensions::<V>(rest) =~= suspensions::<V>(n));
    }
}

/// A pull that was suspended ends, once the store has answered, as it would
/// have ended had the store answered at once; and while the advancement is
/// outstanding a pull resumes it and starts no second one.
pub proof fn lemma_suspension_is_transparent<V>(s: StreamState, polled: Polled<V>)
    requires
        s !is Exhausted,
    ensures
        pull(s, Polled::<V>::NotReady) == (StreamState::Advancing, Pulled::<V>::Pending),
        begin(StreamState::Advancing) == (StreamState::Advancing, PullStep::Resume),
        pull(StreamState::Advancing, polled) == pull(s, polled),
{
}

/// The pulls of a stream that stands on entry `at` of a range yield the
/// values from that entry on, in key order, and leave the stream exhausted.
proof fn lemma_range_from<V>(range: KeyRange<V>, at: int)
    requires
        range.wf(),
        0 <= at <= range.entries.len(),
    ensures
        run(range.standing(at), range.answers(at)) == (StreamState::Exhausted, range.yields(at)),
    decreases range.entries.len() - at,
{
    if at < range.entries.len() {
        let s = range.standing(at);
        let delay = unanswered::<V>(range.waits[at]);
        let answer = range.answer(at);
        let value = Pulled::Ready(Some(range.entries[at]));
        lemma_unanswered_suspends::<V>(s, range.waits[at]);
        let waited = run(s, delay).0;
        assert(run(waited, seq![answer]) == (range.standing(at + 1), seq![value])) by {
            reveal_with_fuel(run, 2);
            assert(pull(waited, answer) == (range.standing(at + 1), value));
            assert(seq![value] + Seq::<Pulled<V>>::empty() =~= seq![value]);
        }
        lemma_run_splits(s, delay, seq![answer]);
        lemma_range_from(range, at + 1);
        lemma_run_splits(s, delay + seq![answer], range.answers(at + 1));
    }
}

/// A fresh stream over a range of `range.entries.len()` entries yields exactly
/// the values of the entries, in key order, and completion on every pull
/// after them: however long the store takes to answer, whichever way it
/// signals the end of the range, and whatever the driver hands in once the
/// range is through (`later`).
pub proof fn lemma_stream_yields_range<V>(range: KeyRange<V>, later: Seq<Polled<V>>)
    requires
        range.wf(),
    ensures
        run(range.opened(), range.answers(0) + later) == (
            StreamState::Exhausted,
            range.yields(0) + completions::<V>(later.len()),
        ),
{
    lemma_range_from(range, 0);
    lemma_exhausted_is_final(later);
    lemma_run_splits(range.opened(), range.answers(0), later);
}

/// When the store reports the end of the range in answer to the advance, the
/// entry that was read before is still yielded, and only then is the stream
/// exhausted. This holds of the classified answer, and of every store error
/// that ends the range.
pub proof fn lemma_end_of_range_keeps_last<V>(
    s: StreamState,
    raw: wasm_bindgen::JsValue,
    err: idb::Error,
    value: V,
    later: Seq<Polled<V>>,
)
    requires
        s !is Exhausted,
    ensures
        settled(raw, Err(AdvanceFailure::EndOfRange)) == Ok::<_, idb::Error>(
            (None::<idb::Cursor>, raw),
        ),
        ends_range(err) ==> settled(raw, classified(Err(err))) == settled(
            raw,
            Err(AdvanceFailure::EndOfRange),
        ),
        pull(
            s,
            Polled::of(settled(raw, Err(AdvanceFailure::EndOfRange)), Decoded::Value(value)),
        ) == (StreamState::Exhausted, Pulled::Ready(Some(value))),
        run(StreamState::Exhausted, later) == (
            StreamState::Exhausted,
            completions::<V>(later.len()),
        ),
{
    lemma_exhausted_is_final(later);
}

/// When the advance fails for another reason than the end of the range, the
/// value that was read is not yielded, whatever the codec makes of it, and the
/// stream is exhausted at once. This holds of the classified answer, and of
/// every store error that does not end the range.
pub proof fn lemma_failure_discards_value<V>(
    s: StreamState,
    raw: wasm_bindgen::JsValue,
    err: idb::Error,
    decoded: Decoded<V>,
    later: Seq<Polled<V>>,
)
    ensures
        settled(raw, Err(AdvanceFailure::Store(err))) == Err::<
            (Option<idb::Cursor>, wasm_bindgen::JsValue),
            _,
        >(err),
        !ends_range(err) ==> settled(raw, classified(Err(err))) == settled(
            raw,
            Err(AdvanceFailure::Store(err)),
        ),
        pull(s, Polled::of(settled(raw, Err(AdvanceFailure::Store(err))), decoded)) == (
            StreamState::Exhausted,
            Pulled::Ready(None::<V>),
        ),
        run(StreamState::Exhausted, later) == (
            StreamState::Exhausted,
            completions::<V>(later.len()),
        ),
{
    lemma_exhausted_is_final(later);
}

/// An entry that is empty or that the codec cannot read is not yielded and
/// ends the stream: the entries after it are never reached, though the store
/// handed back a cursor on them.
pub proof fn lemma_unreadable_entry_ends_stream<V>(
    s: StreamState,
    next: Option<idb::Cursor>,
    decoded: Decoded<V>,
    later: Seq<Polled<V>>,
)
    requires
        decoded !is Value,
    ensures
        pull(s, Polled::Settled { next, decoded }) == (
            StreamState::Exhausted,
            Pulled::Ready(None::<V>),
        ),
        run(StreamState::Exhausted, later) == (
            StreamState::Exhausted,
            completions::<V>(later.len()),
        ),
{
    lemma_exhausted_is_final(later);
}

} // verus!
