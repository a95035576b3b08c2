//! What holds of every mock, stated over the values that the contracts of
//! the module `runtime` speak of.

use vstd::prelude::*;
use crate::runtime::{
    answer, decided, settled, CallModel, ContainerModel, Decision, StubEntry, UnmockedCall,
};

verus! {

/// Each dispatch raises the counter by one: after `n` dispatches it stands
/// `n` higher.
pub proof fn law_counter_after_calls<R, P>(state: CallModel<R, P>, n: nat)
    ensures
        state.after_calls(n).calls == state.calls + n,
    decreases n,
{
    if n > 0 {
        law_counter_after_calls(state, (n - 1) as nat);
    }
}

/// What `k` dispatches do to the stubs: the entries at the `k` indices
/// that the calls observed are used up, and every other entry stays as it
/// was.
pub proof fn law_stubs_after_calls<R, P>(state: CallModel<R, P>, k: nat, i: usize)
    requires
        state.calls + k <= usize::MAX,
    ensures
        state.after_calls(k).stubs.contains_key(i) <==> state.stubs.contains_key(i) && !(
        state.calls < i <= state.calls + k),
        state.after_calls(k).stubs.contains_key(i) ==> state.after_calls(k).stubs[i]
            == state.stubs[i],
    decreases k,
{
    if k > 0 {
        law_stubs_after_calls(state, (k - 1) as nat, i);
        law_counter_after_calls(state, (k - 1) as nat);
    }
}

/// Counter monotonicity: the `n`-th dispatch of a method observes call
/// index `n`, whichever indices have stubs. The index is never 0; the
/// entry configured at `n` is still there when the `n`-th call looks, so a
/// stub serves the call exactly if one was configured at `n` and its guard
/// is absent or evaluates to true; and the counter stands at `n` afterwards.
pub proof fn law_counter_monotonicity<R, P>(
    stubs: Map<usize, StubEntry<R, P>>,
    n: nat,
    probe: bool,
)
    requires
        1 <= n <= usize::MAX,
    ensures
        ({
            let before = (CallModel { calls: 0, stubs }).after_calls((n - 1) as nat);
            &&& before.calls == n - 1
            &&& before.next_index() == n
            &&& before.next_index() != 0
            &&& before.pending() == (CallModel { calls: 0, stubs }).stub_at(n)
            &&& (answer(before.pending(), probe) is Some <==> stubs.contains_key(n as usize) && (
            stubs[n as usize].predicate is None || probe))
            &&& before.after_call().calls == n
        }),
{
    let start = CallModel { calls: 0, stubs };
    law_counter_after_calls(start, (n - 1) as nat);
    law_stubs_after_calls(start, (n - 1) as nat, n as usize);
}

/// Index isolation for every later call: after any number `k` of
/// dispatches, the next call is answered the same with and without a stub
/// at `i`, unless `i` is the index of that call.
pub proof fn law_index_isolation_at_every_call<R, P>(
    state: CallModel<R, P>,
    i: usize,
    entry: StubEntry<R, P>,
    k: nat,
    probe: bool,
)
    requires
        state.calls + k + 1 <= usize::MAX,
        state.calls + k + 1 != i,
    ensures
        state.with_stub(i, entry).after_calls(k).next_index() == state.after_calls(k).next_index(),
        answer(state.with_stub(i, entry).after_calls(k).pending(), probe) == answer(
            state.after_calls(k).pending(),
            probe,
        ),
{
    let j = (state.calls + k + 1) as usize;
    law_counter_after_calls(state, k);
    law_counter_after_calls(state.with_stub(i, entry), k);
    law_stubs_after_calls(state, k, j);
    law_stubs_after_calls(state.with_stub(i, entry), k, j);
}

/// Index isolation within one method: a stub set at index `i` leaves the
/// counter and the entry at every other index as they were, and a dispatch
/// at another index is answered as without it and leaves it in place.
pub proof fn law_index_isolation<R, P>(
    state: CallModel<R, P>,
    i: usize,
    entry: StubEntry<R, P>,
    j: nat,
    probe: bool,
)
    requires
        j != i,
    ensures
        state.with_stub(i, entry).calls == state.calls,
        state.with_stub(i, entry).stub_at(j) == state.stub_at(j),
        state.next_index() != i ==> answer(state.with_stub(i, entry).pending(), probe) == answer(
            state.pending(),
            probe,
        ),
        state.next_index() != i ==> state.with_stub(i, entry).after_call()
            == state.after_call().with_stub(i, entry),
{
    if state.next_index() != i {
        assert(state.with_stub(i, entry).after_call().stubs =~= state.after_call().with_stub(
            i,
            entry,
        ).stubs);
    }
}

/// Index isolation across methods: a stub set for method `m` leaves the
/// fallback and every other method's counter and stubs as they were, and
/// so does a dispatch of `m`; another method's next call is answered as
/// before.
pub proof fn law_method_isolation<T, R, P>(
    container: ContainerModel<T, R, P>,
    m: int,
    i: usize,
    entry: StubEntry<R, P>,
    k: int,
    probe: bool,
)
    requires
        0 <= m < container.slots.len(),
        0 <= k < container.slots.len(),
        k != m,
    ensures
        container.configured(m, i, entry).fallback == container.fallback,
        container.configured(m, i, entry).slots[k] == container.slots[k],
        container.configured(m, i, entry).decision(k, probe) == container.decision(k, probe),
        container.after_dispatch(m).fallback == container.fallback,
        container.after_dispatch(m).slots[k] == container.slots[k],
        container.after_dispatch(m).decision(k, probe) == container.decision(k, probe),
{
}

/// Overwrite semantics: of two results stored at one index the later one
/// stays, and it is what a dispatch at that index consults.
pub proof fn law_overwrite<R, P>(
    state: CallModel<R, P>,
    i: usize,
    first: StubEntry<R, P>,
    second: StubEntry<R, P>,
)
    ensures
        state.with_stub(i, first).with_stub(i, second) == state.with_stub(i, second),
        state.with_stub(i, first).with_stub(i, second).stub_at(i as nat) == Some(second),
        state.next_index() == i ==> forall|probe: bool|
            answer(
                #[trigger] state.with_stub(i, first).with_stub(i, second).pending(),
                probe,
            ) == answer(Some(second), probe),
        forall|j: nat|
            j != i ==> #[trigger] state.with_stub(i, first).with_stub(i, second).stub_at(j)
                == state.with_stub(i, first).stub_at(j),
{
    assert(state.with_stub(i, first).with_stub(i, second).stubs =~= state.with_stub(
        i,
        second,
    ).stubs);
}

/// Predicate gating: where the guard of the stub at the call's index
/// evaluates to false, the call is answered as if no stub were there.
pub proof fn law_predicate_gating<T, R, P>(
    container: ContainerModel<T, R, P>,
    m: int,
    i: usize,
    entry: StubEntry<R, P>,
)
    requires
        0 <= m < container.slots.len(),
        container.slots[m].state.next_index() == i,
        entry.predicate is Some,
    ensures
        answer(container.configured(m, i, entry).slots[m].state.pending(), false) is None,
        container.configured(m, i, entry).decision(m, false) == container.with_state(
            m,
            container.slots[m].state.without_stub(i),
        ).decision(m, false),
        container.configured(m, i, entry).decision(m, false) == decided(
            None::<R>,
            container.fallback is Some,
        ),
        container.configured(m, i, entry).after_dispatch(m).slots[m].state.calls == i,
{
}

/// The three ways a call is answered: by a stub exactly if stub lookup
/// yields a value; else by the fallback exactly if one is set; and as
/// unmocked exactly if there is neither.
pub proof fn law_decision<T, R, P>(container: ContainerModel<T, R, P>, m: int, probe: bool)
    requires
        0 <= m < container.slots.len(),
    ensures
        ({
            let stub = answer(container.slots[m].state.pending(), probe);
            &&& container.decision(m, probe) is Stub <==> stub is Some
            &&& stub is Some ==> container.decision(m, probe) == Decision::Stub(stub->0)
            &&& container.decision(m, probe) is Forward <==> stub is None && container.fallback
                is Some
            &&& container.decision(m, probe) is Unmocked <==> stub is None && container.fallback
                is None
        }),
{
}

/// Fallback correctness: with a fallback set and no stub at the call's
/// index, the call returns what `forward`, the fallback's implementation
/// called with the same arguments, returns: nothing else settles it.
pub proof fn law_fallback<T, R, P, F: FnOnce(&T) -> R>(
    container: ContainerModel<T, R, P>,
    m: int,
    probe: bool,
    forward: F,
    r: Result<R, UnmockedCall>,
)
    requires
        0 <= m < container.slots.len(),
        container.fallback is Some,
        container.slots[m].state.pending() is None,
    ensures
        container.decision(m, probe) == Decision::<R>::Forward,
        container.after_dispatch(m).slots[m].state.stubs == container.slots[m].state.stubs,
        container.after_dispatch(m).slots[m].state.calls == container.slots[m].state.calls + 1,
        settled(
            container.decision(m, probe),
            container.fallback,
            forward,
            container.slots[m].name,
            container.slots[m].state.next_index(),
            r,
        ) <==> r is Ok && call_ensures(forward, (&container.fallback->0,), r->Ok_0),
{
}

/// No-fallback exhaustion: with no fallback set and no stub at the call's
/// index, the call is reported as unmocked, with the method's name and
/// the call index; no value settles it.
pub proof fn law_unmocked<T, R, P, F: FnOnce(&T) -> R>(
    container: ContainerModel<T, R, P>,
    m: int,
    probe: bool,
    forward: F,
    r: Result<R, UnmockedCall>,
)
    requires
        0 <= m < container.slots.len(),
        container.fallback is None,
        container.slots[m].state.pending() is None,
    ensures
        container.decision(m, probe) == Decision::<R>::Unmocked,
        container.after_dispatch(m).slots[m].state.stubs == container.slots[m].state.stubs,
        container.after_dispatch(m).slots[m].state.calls == container.slots[m].state.calls + 1,
        settled(
            container.decision(m, probe),
            container.fallback,
            forward,
            container.slots[m].name,
            container.slots[m].state.next_index(),
            r,
        ) <==> r is Err && r->Err_0.method@ == container.slots[m].name && r->Err_0.index
            == container.slots[m].state.next_index(),
{
}

} // verus!
