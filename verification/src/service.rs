//! The service as a whole: what a history of calls makes of the request
//! count.
//!
//! The handlers of `crate::calculator` and `crate::admin` say what one call
//! does. Here the calls are put in a row, and the count that an
//! administrator reads afterwards is shown to be the number of calculator
//! calls among them, in whatever order they were served.

use vstd::prelude::*;
use crate::calculator::CalculationRequest;

verus! {

/// One call to the service.
pub enum Call {
    /// An addition.
    Add(CalculationRequest),
    /// A division, whether it is answered or refused.
    Divide(CalculationRequest),
    /// A reading of the request count.
    GetRequestCount,
}

impl Call {
    /// By how much serving this call moves the request count: by one for a
    /// calculator call, whatever it answers, and not at all for a reading.
    pub open spec fn weight(self) -> nat {
        match self {
            Call::Add(_) => 1,
            Call::Divide(_) => 1,
            Call::GetRequestCount => 0,
        }
    }
}

/// The request count after `call` has been served from `count`.
pub open spec fn count_after_call(count: nat, call: Call) -> nat {
    count + call.weight()
}

/// The request count after `calls` have been served one after the other,
/// the first of them from `count`.
pub open spec fn count_after(count: nat, calls: Seq<Call>) -> nat
    decreases calls.len(),
{
    if calls.len() == 0 {
        count
    } else {
        count_after_call(count_after(count, calls.drop_last()), calls.last())
    }
}

/// How many of `calls` are calculator calls.
pub open spec fn calculations(calls: Seq<Call>) -> nat
    decreases calls.len(),
{
    if calls.len() == 0 {
        0
    } else {
        calculations(calls.drop_last()) + calls.last().weight()
    }
}

/// Whether every one of `calls` is a calculator call.
pub open spec fn all_calculations(calls: Seq<Call>) -> bool {
    forall|i: int| 0 <= i < calls.len() ==> (#[trigger] calls[i]).weight() == 1
}

/// Serving a history of calls adds to the request count the number of
/// calculator calls in it: each addition and each division counts once,
/// a refused division too, and a reading does not count.
pub proof fn lemma_count_after(count: nat, calls: Seq<Call>)
    ensures
        count_after(count, calls) == count + calculations(calls),
    decreases calls.len(),
{
    if calls.len() > 0 {
        lemma_count_after(count, calls.drop_last());
    }
}

/// After `n` calculator calls served one after the other from a fresh
/// counter, additions and divisions in any mix, the request count is `n`.
pub proof fn lemma_count_of_calculations(calls: Seq<Call>)
    requires
        all_calculations(calls),
    ensures
        count_after(0, calls) == calls.len(),
    decreases calls.len(),
{
    if calls.len() > 0 {
        let earlier = calls.drop_last();
        assert forall|i: int| 0 <= i < earlier.len() implies (#[trigger] earlier[i]).weight()
            == 1 by {
            assert(earlier[i] == calls[i]);
        }
        lemma_count_of_calculations(earlier);
        assert(calls.last() == calls[calls.len() - 1]);
    }
}

/// The request count never goes down: after any history of calls it is at
/// least what it was, and at least what it was after any beginning of
/// that history.
pub proof fn lemma_count_never_decreases(count: nat, calls: Seq<Call>, served: int)
    requires
        0 <= served <= calls.len(),
    ensures
        count <= count_after(count, calls.take(served)) <= count_after(count, calls),
    decreases calls.len() - served,
{
    lemma_count_after(count, calls.take(served));
    if served < calls.len() {
        lemma_count_never_decreases(count, calls, served + 1);
        assert(calls.take(served + 1).drop_last() =~= calls.take(served));
    } else {
        assert(calls.take(served) =~= calls);
    }
}

/// Taking one call out of a history takes its weight out of the number of
/// calculator calls.
proof fn lemma_calculations_remove(calls: Seq<Call>, at: int)
    requires
        0 <= at < calls.len(),
    ensures
        calculations(calls) == calculations(calls.remove(at)) + calls[at].weight(),
    decreases calls.len(),
{
    if at == calls.len() - 1 {
        assert(calls.remove(at) =~= calls.drop_last());
    } else {
        lemma_calculations_remove(calls.drop_last(), at);
        assert(calls.remove(at).drop_last() =~= calls.drop_last().remove(at));
        assert(calls.remove(at).last() == calls.last());
    }
}

/// The request count does not depend on the order in which calls are
/// served: two histories that hold the same calls, each as often as the
/// other, lead from the same count to the same count. So calls that arrive
/// together and are served one at a time, in an order that nobody chose,
/// are all counted.
pub proof fn lemma_count_independent_of_order(count: nat, calls: Seq<Call>, reordered: Seq<Call>)
    requires
        calls.to_multiset() == reordered.to_multiset(),
    ensures
        count_after(count, calls) == count_after(count, reordered),
    decreases calls.len(),
{
    lemma_count_after(count, calls);
    lemma_count_after(count, reordered);
    vstd::seq_lib::to_multiset_len(calls);
    vstd::seq_lib::to_multiset_len(reordered);
    if calls.len() > 0 {
        let last = calls.len() - 1;
        let call = calls[last];
        assert(calls.contains(call));
        vstd::seq_lib::to_multiset_contains(calls, call);
        vstd::seq_lib::to_multiset_contains(reordered, call);
        let at = choose|at: int| 0 <= at < reordered.len() && reordered[at] == call;
        vstd::seq_lib::to_multiset_remove(calls, last);
        vstd::seq_lib::to_multiset_remove(reordered, at);
        assert(calls.remove(last) =~= calls.drop_last());
        lemma_count_independent_of_order(count, calls.drop_last(), reordered.remove(at));
        lemma_count_after(count, calls.drop_last());
        lemma_count_after(count, reordered.remove(at));
        lemma_calculations_remove(reordered, at);
    }
}

} // verus!
