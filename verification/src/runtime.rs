//! What a mock does when it runs: per-method call states, the builder that
//! configures them, and dispatch with stub lookup, fallback and the
//! unmocked-call report.
//!
//! A container keeps one call state per method, in the order of the method
//! descriptors it was made for; a method is named by its position in that
//! order. All methods of one container share the result type `R` and the
//! predicate type `P`.
//!
//! Everything here is for use from one thread: the counters and stub maps
//! are changed through `&mut`, without synchronization.

use vstd::prelude::*;
use std::collections::HashMap;
use crate::model::MethodDescriptor;

verus! {

/// A configured result for one call of one method: the value, and the
/// guard that decides at dispatch time whether the value is used.
pub struct StubEntry<R, P> {
    pub predicate: Option<P>,
    pub value: R,
}

/// The call counter of one method and its stubs by call index.
pub struct CallState<R, P> {
    counter: usize,
    stubs: HashMap<usize, StubEntry<R, P>>,
}

/// A call state as a value: how many calls were dispatched, and the stub
/// entries by call index.
pub struct CallModel<R, P> {
    pub calls: nat,
    pub stubs: Map<usize, StubEntry<R, P>>,
}

/// The report of a call that found neither a stub nor a fallback.
#[derive(Debug, Clone, PartialEq, Eq)]
pub struct UnmockedCall {
    /// The name of the method that was called.
    pub method: String,
    /// The call index: 1 for the method's first call.
    pub index: usize,
}

/// How a call is answered.
#[derive(Debug, Clone, PartialEq, Eq)]
pub enum Decision<R> {
    /// With the stored value of the stub at the call's index.
    Stub(R),
    /// By the fallback's implementation of the method.
    Forward,
    /// Not at all: the call is reported as unmocked.
    Unmocked,
}

impl<R, P> CallModel<R, P> {
    /// No call yet, no stub.
    pub open spec fn fresh() -> Self {
        CallModel { calls: 0, stubs: Map::empty() }
    }

    /// The index that the next dispatch observes.
    pub open spec fn next_index(self) -> nat {
        self.calls + 1
    }

    /// The entry registered at a call index, if any.
    pub open spec fn stub_at(self, index: nat) -> Option<StubEntry<R, P>> {
        if index <= usize::MAX && self.stubs.contains_key(index as usize) {
            Some(self.stubs[index as usize])
        } else {
            None
        }
    }

    /// The entry that the next dispatch consults.
    pub open spec fn pending(self) -> Option<StubEntry<R, P>> {
        self.stub_at(self.next_index())
    }

    /// The state after `entry` was registered at `index`: it takes the
    /// place of any entry that was there.
    pub open spec fn with_stub(self, index: usize, entry: StubEntry<R, P>) -> Self {
        CallModel { calls: self.calls, stubs: self.stubs.insert(index, entry) }
    }

    /// The state without an entry at `index`.
    pub open spec fn without_stub(self, index: usize) -> Self {
        CallModel { calls: self.calls, stubs: self.stubs.remove(index) }
    }

    /// The state after one dispatch: the counter is one higher, and the
    /// entry at the new index, consulted by this call, is used up.
    pub open spec fn after_call(self) -> Self {
        CallModel {
            calls: self.calls + 1,
            stubs: if self.calls < usize::MAX {
                self.stubs.remove((self.calls + 1) as usize)
            } else {
                self.stubs
            },
        }
    }

    /// The state after `n` dispatches.
    pub open spec fn after_calls(self, n: nat) -> Self
        decreases n,
    {
        if n == 0 {
            self
        } else {
            self.after_calls((n - 1) as nat).after_call()
        }
    }
}

/// Whether `probe` can be what the entry's guard evaluates to. An absent
/// entry and an entry without a guard admit either value.
pub open spec fn admits<R, P: FnOnce() -> bool>(
    entry: Option<StubEntry<R, P>>,
    probe: bool,
) -> bool {
    match entry {
        Some(StubEntry { predicate: Some(p), .. }) => call_ensures(p, (), probe),
        _ => true,
    }
}

/// Whether the entry's guard, if it has one, may be called.
pub open spec fn callable<R, P: FnOnce() -> bool>(entry: Option<StubEntry<R, P>>) -> bool {
    match entry {
        Some(StubEntry { predicate: Some(p), .. }) => call_requires(p, ()),
        _ => true,
    }
}

/// The value that stub lookup yields: the entry's value where there is an
/// entry and its guard is absent or evaluated to true (`probe`).
pub open spec fn answer<R, P>(entry: Option<StubEntry<R, P>>, probe: bool) -> Option<R> {
    match entry {
        None => None,
        Some(StubEntry { predicate: None, value }) => Some(value),
        Some(StubEntry { predicate: Some(_), value }) => if probe {
            Some(value)
        } else {
            None
        },
    }
}

/// How a call is answered, given what stub lookup yielded and whether a
/// fallback is present.
pub open spec fn decided<R>(stub: Option<R>, has_fallback: bool) -> Decision<R> {
    match stub {
        Some(value) => Decision::Stub(value),
        None => if has_fallback {
            Decision::Forward
        } else {
            Decision::Unmocked
        },
    }
}

/// Decides how a call is answered: a stub's value comes first, then the
/// fallback, and a call with neither is unmocked.
pub fn decide<R>(stub: Option<R>, has_fallback: bool) -> (d: Decision<R>)
    ensures
        d == decided(stub, has_fallback),
{
    match stub {
        Some(value) => Decision::Stub(value),
        None => if has_fallback {
            Decision::Forward
        } else {
            Decision::Unmocked
        },
    }
}

impl<R, P> View for CallState<R, P> {
    type V = CallModel<R, P>;

    closed spec fn view(&self) -> CallModel<R, P> {
        CallModel { calls: self.counter as nat, stubs: self.stubs@ }
    }
}

impl<R, P> CallState<R, P> {
    /// A call state before any call, without stubs.
    pub fn new() -> (s: Self)
        ensures
            s@ == CallModel::<R, P>::fresh(),
    {
        CallState { counter: 0, stubs: HashMap::new() }
    }

    /// How many calls were dispatched.
    pub fn calls(&self) -> (n: usize)
        ensures
            n == self@.calls,
    {
        self.counter
    }

    /// Whether an entry is registered at a call index.
    pub fn has_stub(&self, index: usize) -> (b: bool)
        ensures
            b == self@.stubs.contains_key(index),
    {
        broadcast use vstd::std_specs::hash::group_hash_axioms;

        self.stubs.contains_key(&index)
    }

    /// Registers `entry` at `index`, in place of any entry that was there.
    /// The counter stays as it is. Call indices start at 1: index 0 stands
    /// for "before any call" and takes no entry.
    pub fn stub(&mut self, index: usize, entry: StubEntry<R, P>)
        requires
            index >= 1,
        ensures
            final(self)@ == old(self)@.with_stub(index, entry),
    {
        self.stubs.insert(index, entry);
    }

    /// One dispatch: counts the call and looks up the stub at the new call
    /// index. Returns the index and, where an entry is registered there and
    /// its guard is absent or evaluates to true, the entry's value. Only the
    /// entry at that index is looked at, and the call uses it up.
    pub fn dispatch(&mut self) -> (r: (usize, Option<R>)) where P: FnOnce() -> bool
        requires
            old(self)@.calls < usize::MAX,
            callable(old(self)@.pending()),
        ensures
            final(self)@ == old(self)@.after_call(),
            r.0 == old(self)@.next_index(),
            r.0 >= 1,
            exists|probe: bool|
                admits(old(self)@.pending(), probe) && r.1 == #[trigger] answer(
                    old(self)@.pending(),
                    probe,
                ),
    {
        broadcast use vstd::std_specs::hash::group_hash_axioms;

        let ghost pending = self@.pending();
        self.counter = self.counter + 1;
        let index = self.counter;
        match self.stubs.remove(&index) {
            None => {
                assert(admits(pending, true) && None::<R> == answer(pending, true));
                (index, None)
            },
            Some(entry) => {
                let StubEntry { predicate, value } = entry;
                match predicate {
                    None => {
                        assert(admits(pending, true) && Some(value) == answer(pending, true));
                        (index, Some(value))
                    },
                    Some(p) => {
                        let holds = p();
                        assert(admits(pending, holds));
                        if holds {
                            assert(Some(value) == answer(pending, holds));
                            (index, Some(value))
                        } else {
                            assert(None::<R> == answer(pending, holds));
                            (index, None)
                        }
                    },
                }
            },
        }
    }
}

/// The configuration handle for one method: the call state it is bound
/// to, the call index it targets, and the guard that the next stored
/// result will carry.
pub struct Builder<'a, R, P> {
    pub state: &'a mut CallState<R, P>,
    pub target: usize,
    pub predicate: Option<P>,
}

impl<'a, R, P> Builder<'a, R, P> {
    /// A builder bound to `state`. It targets the first call and holds no
    /// guard.
    pub fn on(state: &'a mut CallState<R, P>) -> (b: Self)
        ensures
            *b.state == *old(state),
            *final(b.state) == *final(state),
            b.target == 1,
            b.predicate is None,
    {
        Builder { state, target: 1, predicate: None }
    }

    /// Targets the first call.
    pub fn first_call(self) -> (b: Self)
        ensures
            *b.state == *old(self.state),
            *final(b.state) == *final(self.state),
            b.target == 1,
            b.predicate == self.predicate,
    {
        self.nth_call(1)
    }

    /// Targets the second call.
    pub fn second_call(self) -> (b: Self)
        ensures
            *b.state == *old(self.state),
            *final(b.state) == *final(self.state),
            b.target == 2,
            b.predicate == self.predicate,
    {
        self.nth_call(2)
    }

    /// Targets the `n`-th call; the first call is call 1.
    pub fn nth_call(self, n: usize) -> (b: Self)
        requires
            n >= 1,
        ensures
            *b.state == *old(self.state),
            *final(b.state) == *final(self.state),
            b.target == n,
            b.predicate == self.predicate,
    {
        let Builder { state, target: _, predicate } = self;
        Builder { state, target: n, predicate }
    }

    /// Attaches a guard: the next stored result is used only if `predicate`
    /// evaluates to true when its call is dispatched.
    pub fn when(self, predicate: P) -> (b: Self)
        ensures
            *b.state == *old(self.state),
            *final(b.state) == *final(self.state),
            b.target == self.target,
            b.predicate == Some(predicate),
    {
        let Builder { state, target, predicate: _ } = self;
        Builder { state, target, predicate: Some(predicate) }
    }

    /// Stores `value`, with the guard attached since the last stored
    /// result, as the entry at the targeted index, in place of any entry
    /// that was there. The builder keeps its target and holds no guard
    /// afterwards.
    pub fn set_result(self, value: R) -> (b: Self)
        requires
            self.target >= 1,
        ensures
            b.state@ == old(self.state)@.with_stub(
                self.target,
                StubEntry { predicate: self.predicate, value },
            ),
            *final(b.state) == *final(self.state),
            b.target == self.target,
            b.predicate is None,
    {
        let Builder { state, target, predicate } = self;
        state.stub(target, StubEntry { predicate, value });
        Builder { state, target, predicate: None }
    }
}

/// One method of a container: its name and its call state.
pub struct MethodSlot<R, P> {
    name: String,
    state: CallState<R, P>,
}

pub struct SlotModel<R, P> {
    pub name: Seq<char>,
    pub state: CallModel<R, P>,
}

impl<R, P> View for MethodSlot<R, P> {
    type V = SlotModel<R, P>;

    closed spec fn view(&self) -> SlotModel<R, P> {
        SlotModel { name: self.name@, state: self.state@ }
    }
}

/// A mock: an optional fallback delegate and one call state per method.
pub struct MockContainer<T, R, P> {
    fallback: Option<T>,
    slots: Vec<MethodSlot<R, P>>,
}

/// A container as a value.
#[verifier::ext_equal]
pub struct ContainerModel<T, R, P> {
    pub fallback: Option<T>,
    pub slots: Seq<SlotModel<R, P>>,
}

impl<T, R, P> ContainerModel<T, R, P> {
    /// The container with the call state of `method` replaced.
    pub open spec fn with_state(self, method: int, state: CallModel<R, P>) -> Self {
        ContainerModel {
            fallback: self.fallback,
            slots: self.slots.update(
                method,
                SlotModel { name: self.slots[method].name, state },
            ),
        }
    }

    /// The container after `entry` was registered at `index` for `method`.
    pub open spec fn configured(self, method: int, index: usize, entry: StubEntry<R, P>) -> Self {
        self.with_state(method, self.slots[method].state.with_stub(index, entry))
    }

    /// The container after one dispatch of `method`.
    pub open spec fn after_dispatch(self, method: int) -> Self {
        self.with_state(method, self.slots[method].state.after_call())
    }

    /// How the next call of `method` is answered, where the guard of the
    /// entry it consults, if there is one, evaluates to `probe`.
    pub open spec fn decision(self, method: int, probe: bool) -> Decision<R> {
        decided(answer(self.slots[method].state.pending(), probe), self.fallback is Some)
    }
}

/// Whether `r` is what a call returns that is answered by `decision`:
/// the stub's value; what `forward` returns for the fallback; or the
/// report with the method's name and the call index.
pub open spec fn settled<T, R, F: FnOnce(&T) -> R>(
    decision: Decision<R>,
    fallback: Option<T>,
    forward: F,
    name: Seq<char>,
    index: nat,
    r: Result<R, UnmockedCall>,
) -> bool {
    match decision {
        Decision::Stub(value) => r == Ok::<R, UnmockedCall>(value),
        Decision::Forward => fallback is Some && r is Ok && call_ensures(
            forward,
            (&fallback->0,),
            r->Ok_0,
        ),
        Decision::Unmocked => r is Err && r->Err_0.method@ == name && r->Err_0.index == index,
    }
}

impl<T, R, P> View for MockContainer<T, R, P> {
    type V = ContainerModel<T, R, P>;

    closed spec fn view(&self) -> ContainerModel<T, R, P> {
        ContainerModel { fallback: self.fallback, slots: self.slots@.map_values(|s: MethodSlot<R, P>| s@) }
    }
}

impl<T, R, P> MockContainer<T, R, P> {
    /// A container for the given methods: no fallback, and for each method
    /// a call state before any call, without stubs.
    pub fn new(methods: &Vec<MethodDescriptor>) -> (c: Self)
        ensures
            c@.fallback is None,
            c@.slots.len() == methods@.len(),
            forall|m: int|
                0 <= m < methods@.len() ==> #[trigger] c@.slots[m] == (SlotModel {
                    name: methods@[m].name@,
                    state: CallModel::<R, P>::fresh(),
                }),
    {
        let mut slots: Vec<MethodSlot<R, P>> = Vec::new();
        let mut i: usize = 0;
        while i < methods.len()
            invariant
                i <= methods.len(),
                slots@.len() == i,
                forall|m: int|
                    0 <= m < i ==> #[trigger] slots@[m]@ == (SlotModel {
                        name: methods@[m].name@,
                        state: CallModel::<R, P>::fresh(),
                    }),
            decreases methods.len() - i,
        {
            slots.push(MethodSlot { name: methods[i].name.clone(), state: CallState::new() });
            i = i + 1;
        }
        MockContainer { fallback: None, slots }
    }

    /// Sets the fallback delegate, in place of any earlier one. The call
    /// states stay as they are.
    pub fn set_fallback(&mut self, delegate: T)
        ensures
            final(self)@.fallback == Some(delegate),
            final(self)@.slots == old(self)@.slots,
    {
        self.fallback = Some(delegate);
    }

    /// Whether a fallback delegate is set.
    pub fn has_fallback(&self) -> (b: bool)
        ensures
            b == (self@.fallback is Some),
    {
        self.fallback.is_some()
    }

    /// The number of methods.
    pub fn methods(&self) -> (n: usize)
        ensures
            n == self@.slots.len(),
    {
        self.slots.len()
    }

    /// How many calls of `method` were dispatched.
    pub fn calls(&self, method: usize) -> (n: usize)
        requires
            method < self@.slots.len(),
        ensures
            n == self@.slots[method as int].state.calls,
    {
        self.slots[method].state.calls()
    }

    /// A fresh builder bound to the call state of `method`. What is
    /// configured through the builder reaches that call state and nothing
    /// else in the container.
    pub fn accessor(&mut self, method: usize) -> (b: Builder<'_, R, P>)
        requires
            method < old(self)@.slots.len(),
        ensures
            b.state@ == old(self)@.slots[method as int].state,
            b.target == 1,
            b.predicate is None,
            final(self)@ == old(self)@.with_state(method as int, final(b.state)@),
    {
        let slot = &mut self.slots[method];
        let b = Builder { state: &mut slot.state, target: 1, predicate: None };
        b
    }

    /// Dispatches one call of `method`: counts it, and answers it with the
    /// stub at the new call index where there is one and its guard is absent
    /// or evaluates to true, else with what `forward` returns for the
    /// fallback where one is set, else with the report of the unmocked call.
    pub fn dispatch<F>(&mut self, method: usize, forward: F) -> (r: Result<R, UnmockedCall>) where
        F: FnOnce(&T) -> R,
        P: FnOnce() -> bool,

        requires
            method < old(self)@.slots.len(),
            old(self)@.slots[method as int].state.calls < usize::MAX,
            callable(old(self)@.slots[method as int].state.pending()),
            old(self)@.fallback is Some ==> call_requires(forward, (&old(self)@.fallback->0,)),
        ensures
            final(self)@ == old(self)@.after_dispatch(method as int),
            exists|probe: bool|
                admits(old(self)@.slots[method as int].state.pending(), probe) && settled(
                    #[trigger] old(self)@.decision(method as int, probe),
                    old(self)@.fallback,
                    forward,
                    old(self)@.slots[method as int].name,
                    old(self)@.slots[method as int].state.next_index(),
                    r,
                ),
    {
        let ghost before = self@;
        let ghost pending = before.slots[method as int].state.pending();
        let (index, stub) = self.slots[method].state.dispatch();
        proof {
            assert(self@.slots =~= before.after_dispatch(method as int).slots);
        }
        let ghost probe = choose|probe: bool|
            admits(pending, probe) && stub == #[trigger] answer(pending, probe);
        match decide(stub, self.fallback.is_some()) {
            Decision::Stub(value) => {
                let r = Ok(value);
                assert(settled(
                    before.decision(method as int, probe),
                    before.fallback,
                    forward,
                    before.slots[method as int].name,
                    before.slots[method as int].state.next_index(),
                    r,
                ));
                r
            },
            Decision::Forward => {
                match &self.fallback {
                    Some(delegate) => {
                        let r = Ok(forward(delegate));
                        assert(settled(
                            before.decision(method as int, probe),
                            before.fallback,
                            forward,
                            before.slots[method as int].name,
                            before.slots[method as int].state.next_index(),
                            r,
                        ));
                        r
                    },
                    None => {
                        assert(false);
                        Err(UnmockedCall { method: self.slots[method].name.clone(), index })
                    },
                }
            },
            Decision::Unmocked => {
                let r = Err(UnmockedCall { method: self.slots[method].name.clone(), index });
                assert(settled(
                    before.decision(method as int, probe),
                    before.fallback,
                    forward,
                    before.slots[method as int].name,
                    before.slots[method as int].state.next_index(),
                    r,
                ));
                r
            },
        }
    }
}

} // verus!
