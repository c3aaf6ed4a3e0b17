//! Running an adapter against a recorded byte source.

use vstd::prelude::*;
use crate::decode::Decode;
use crate::laws::{run, yielded_bytes_leave, Trace};
use crate::outcome::{PollResult, SourceEvent, SourcePoll, Step};
use crate::stream::DecodeStream;

verus! {

/// The events of a recorded script.
pub open spec fn events(script: Seq<SourcePoll>) -> Seq<SourceEvent> {
    Seq::new(script.len(), |i: int| script[i]@)
}

/// The models of decoded values.
pub open spec fn models<D: Decode>(values: Seq<D>) -> Seq<D::V> {
    Seq::new(values.len(), |i: int| values[i]@)
}

/// Polls `stream` as a consumer would, again after each value and after each
/// `Pending`, while the recorded `script` answers the pulls, one event per
/// pull. Returns the values in the order they were handed out and the result
/// that stopped the run: the end of the sequence, its error, or `Pending` once
/// the script is used up.
pub fn replay<D: Decode>(stream: DecodeStream<D>, script: &Vec<SourcePoll>) -> (out: (
    Vec<D>,
    PollResult<D, D::Error>,
))
    requires
        stream.wf(),
    ensures
        run::<D>(stream@, events(script@)) == (Trace { values: models::<D>(out.0@), end: out.1@ }),
{
    let ghost all = events(script@);
    let ghost whole = run::<D>(stream@, all);
    let mut adapter = stream;
    let mut values: Vec<D> = Vec::new();
    let mut at: usize = 0;
    assert(all.skip(0) =~= all);
    assert(models::<D>(values@) + whole.values =~= whole.values);
    loop
        invariant
            adapter.wf(),
            at <= script.len(),
            all == events(script@),
            whole == run::<D>(stream@, all),
            whole.values == models::<D>(values@) + run::<D>(adapter@, all.skip(at as int)).values,
            whole.end == run::<D>(adapter@, all.skip(at as int)).end,
        decreases script.len() - at, adapter@.pending.len(),
    {
        let ghost before = adapter@;
        let ghost shown = models::<D>(values@);
        let ghost rest = all.skip(at as int);
        match adapter.poll() {
            Step::Done(PollResult::Ready(Some(value))) => {
                proof {
                    yielded_bytes_leave::<D>(before);
                    let tail = run::<D>(adapter@, rest).values;
                    assert(models::<D>(values@.push(value)) =~= shown.push(value@));
                    assert(shown + (seq![value@] + tail) =~= shown.push(value@) + tail);
                }
                values.push(value);
            },
            Step::Done(end) => {
                assert(whole.values =~= models::<D>(values@));
                return (values, end);
            },
            Step::Pull => {
                if at == script.len() {
                    assert(whole.values =~= models::<D>(values@));
                    return (values, PollResult::Pending);
                }
                assert(rest[0] == script[at as int]@);
                assert(rest.skip(1) =~= all.skip(at + 1));
                let answer = adapter.supply(script[at].duplicate());
                at += 1;
                match answer {
                    None => {},
                    Some(PollResult::Pending) => {},
                    Some(end) => {
                        assert(whole.values =~= models::<D>(values@));
                        return (values, end);
                    },
                }
            },
        }
    }
}

} // verus!
