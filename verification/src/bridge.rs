//! The bridge's state: which worker serves which module, which workers
//! are live, and which calls each of them still owes an answer.

use crate::error::{AppError, Status};
use crate::json::JsonDoc;
use crate::protocol::{
    call_plan, conclude, conclusion, launch_model, launch_plan, plan_call, plan_launch,
    response_model, Cleanup, Completion, LaunchPlan, ModuleLookup, WorkerSpec,
};
use crate::text::{text_of, texts};
use crate::strmap::{distinct_keys, map_of, sorted_keys, Entry, StrMap};
use crate::wire::{decode_line, decoded_line, outcome_model, Outcome, Reply, WorkerError};
use serde_json::Value;
use std::collections::HashMap;
use vstd::prelude::*;

verus! {

broadcast use vstd::std_specs::hash::group_hash_axioms;

/// The bridge's state as contracts see it. `T` is the slot in which a
/// pending call waits for its answer.
pub struct BridgeView<T> {
    /// The worker that serves each module.
    pub table: Map<Seq<char>, u64>,
    /// The live workers, each with its pending calls by identifier.
    pub pending: Map<u64, Map<Seq<char>, T>>,
    /// The key that the next worker gets.
    pub next: u64,
}

impl<T> BridgeView<T> {
    /// Every key in use was given out before `next`: the keys of the live
    /// workers and the keys that the table names, live or not.
    pub open spec fn wf(self) -> bool {
        &&& forall|w: u64| self.pending.contains_key(w) ==> w < self.next
        &&& forall|m: Seq<char>| self.table.contains_key(m) ==> self.table[m] < self.next
    }

    /// Whether the worker is live: its output has not ended and no write
    /// to it has failed.
    pub open spec fn is_live(self, worker: u64) -> bool {
        self.pending.contains_key(worker)
    }

    /// The worker that a call to `module` can use without starting one: the
    /// one in the table, where it is live.
    pub open spec fn reusable(self, module: Seq<char>) -> Option<u64> {
        if self.table.contains_key(module) && self.is_live(self.table[module]) {
            Some(self.table[module])
        } else {
            None
        }
    }

    /// The slot of a pending call.
    pub open spec fn slot(self, worker: u64, id: Seq<char>) -> Option<T> {
        if self.is_live(worker) && self.pending[worker].contains_key(id) {
            Some(self.pending[worker][id])
        } else {
            None
        }
    }

    /// The state after a worker was started for `module`: it gets the key
    /// `next`, has no pending call, and takes the module's place in the
    /// table.
    pub open spec fn installed(self, module: Seq<char>) -> Self {
        BridgeView {
            table: self.table.insert(module, self.next),
            pending: self.pending.insert(self.next, Map::empty()),
            next: (self.next + 1) as u64,
        }
    }

    /// The state after a call was registered with a live worker.
    pub open spec fn registered(self, worker: u64, id: Seq<char>, slot: T) -> Self {
        if self.is_live(worker) {
            BridgeView {
                pending: self.pending.insert(worker, self.pending[worker].insert(id, slot)),
                ..self
            }
        } else {
            self
        }
    }

    /// The state after a call was taken out of a worker's pending calls.
    pub open spec fn taken(self, worker: u64, id: Seq<char>) -> Self {
        if self.is_live(worker) {
            BridgeView {
                pending: self.pending.insert(worker, self.pending[worker].remove(id)),
                ..self
            }
        } else {
            self
        }
    }

    /// The state after a worker's output ended: the worker is live no more
    /// and owes no answer.
    pub open spec fn closed(self, worker: u64) -> Self {
        BridgeView { pending: self.pending.remove(worker), ..self }
    }

    /// The state after `worker` was taken out of the table, where it was
    /// the one that served `module`.
    pub open spec fn evicted(self, module: Seq<char>, worker: u64) -> Self {
        if self.table.contains_key(module) && self.table[module] == worker {
            BridgeView { table: self.table.remove(module), ..self }
        } else {
            self
        }
    }

    /// The state after a write to `worker` failed for the call `id`: the
    /// call is pending no more, the worker leaves the table, and the worker
    /// counts as dead, as if its output had ended.
    pub open spec fn write_failed(self, module: Seq<char>, worker: u64, id: Seq<char>) -> Self {
        self.taken(worker, id).evicted(module, worker).closed(worker)
    }

    /// The state after the cleanup that the end of a call asks for.
    pub open spec fn cleaned(self, cleanup: Cleanup, module: Seq<char>, worker: u64, id: Seq<
        char,
    >) -> Self {
        match cleanup {
            Cleanup::Nothing => self,
            Cleanup::Evict => self.evicted(module, worker),
            Cleanup::Deregister => self.taken(worker, id),
        }
    }
}

/// Where a call goes.
#[derive(Clone, Debug)]
pub struct Dispatch {
    /// The live worker to use; `None` where one has to be started.
    pub worker: Option<u64>,
    /// How long to wait for the reply, in milliseconds.
    pub timeout_ms: u64,
}

/// The worker for a call.
pub enum WorkerChoice {
    /// The module's live worker.
    Reuse(u64),
    /// No live worker serves the module: one is to be started like this.
    Launch(LaunchPlan),
}

/// What became of a registration.
pub enum Registered<T> {
    /// The call is pending.
    Pending,
    /// The call is pending in the place of an earlier one with the same
    /// identifier, whose slot is handed back.
    Replaced(T),
    /// The worker is not live; the slot is handed back.
    Gone(T),
}

/// What a failed write leaves to be resolved.
pub struct FailedWrite<T> {
    /// The slot of the call whose request could not be written, where it
    /// was still pending.
    pub call: Option<T>,
    /// The other calls that the worker still owed an answer, each to be
    /// resolved as closed.
    pub owed: Vec<Entry<T>>,
}

/// An answer for the call that waits in `slot`.
pub struct Delivery<T> {
    pub slot: T,
    pub outcome: Result<Value, WorkerError>,
}

/// The model of a dispatch.
pub open spec fn dispatch_model(r: Result<Dispatch, AppError>) -> Result<
    (Option<u64>, u64),
    (Status, Seq<char>),
> {
    match r {
        Ok(d) => Ok((d.worker, d.timeout_ms)),
        Err(e) => Err(e@),
    }
}

/// The model of a delivery.
pub open spec fn delivery_model<T>(r: Option<Delivery<T>>) -> Option<(T, Outcome)> {
    match r {
        Some(d) => Some((d.slot, outcome_model(d.outcome))),
        None => None,
    }
}

/// The bridge's state.
pub struct Bridge<T> {
    table: StrMap<u64>,
    live: HashMap<u64, StrMap<T>>,
    next: u64,
}

impl<T> Bridge<T> {
    /// The state as contracts see it.
    pub closed spec fn view(self) -> BridgeView<T> {
        BridgeView {
            table: self.table@,
            pending: Map::new(
                |w: u64| self.live@.contains_key(w),
                |w: u64| self.live@[w]@,
            ),
            next: self.next,
        }
    }

    #[verifier::type_invariant]
    closed spec fn inv(self) -> bool {
        &&& forall|w: u64| self.live@.contains_key(w) ==> w < self.next
        &&& forall|m: Seq<char>| self.table@.contains_key(m) ==> self.table@[m] < self.next
    }

    /// The state of a bridge that has started no worker.
    pub fn new() -> (r: Self)
        ensures
            r@.table == Map::<Seq<char>, u64>::empty(),
            r@.pending == Map::<u64, Map<Seq<char>, T>>::empty(),
            r@.next == 0,
            r@.wf(),
    {
        let r = Bridge { table: StrMap::new(), live: HashMap::new(), next: 0 };
        assert(r@.pending =~= Map::<u64, Map<Seq<char>, T>>::empty());
        r
    }

    fn take_table(&mut self) -> (r: StrMap<u64>)
        ensures
            r == old(self).table,
            final(self).live == old(self).live,
            final(self).next == old(self).next,
    {
        proof {
            use_type_invariant(&*self);
        }
        let mut table: StrMap<u64> = StrMap::new();
        core::mem::swap(&mut self.table, &mut table);
        table
    }

    fn take_live(&mut self) -> (r: HashMap<u64, StrMap<T>>)
        ensures
            r == old(self).live,
            final(self).table == old(self).table,
            final(self).next == old(self).next,
            final(self).live@ == Map::<u64, StrMap<T>>::empty(),
    {
        proof {
            use_type_invariant(&*self);
        }
        let mut live: HashMap<u64, StrMap<T>> = HashMap::new();
        core::mem::swap(&mut self.live, &mut live);
        live
    }

    /// The live worker that serves `module`, if there is one.
    pub fn acquire(&self, module: &str) -> (r: Option<u64>)
        ensures
            r == self@.reusable(module@),
    {
        match self.table.get(module) {
            Some(worker) => if self.live.contains_key(worker) {
                Some(*worker)
            } else {
                None
            },
            None => None,
        }
    }

    /// The worker for a call to `module`: the module's live worker where
    /// there is one, at no further cost; otherwise the plan to start one,
    /// or the reason why none may be started. The state stays as it is
    /// until a started worker is installed.
    pub fn get_or_start_worker(
        &self,
        module: &str,
        module_dir: &str,
        spec: &WorkerSpec,
        local_exists: bool,
    ) -> (r: Result<WorkerChoice, AppError>)
        ensures
            match self@.reusable(module@) {
                Some(worker) => r matches Ok(WorkerChoice::Reuse(w)) && w == worker,
                None => match launch_plan(
                    module_dir@,
                    texts(spec.cmd@),
                    text_of(spec.cwd),
                    local_exists,
                ) {
                    Ok(planned) => r matches Ok(WorkerChoice::Launch(plan)) && launch_model(
                        Ok(plan),
                    ) == Ok::<(Seq<char>, Seq<Seq<char>>, Seq<char>), (Status, Seq<char>)>(
                        planned,
                    ),
                    Err(e) => r matches Err(refusal) && refusal@ == e,
                },
            },
    {
        match self.acquire(module) {
            Some(worker) => Ok(WorkerChoice::Reuse(worker)),
            None => match plan_launch(module_dir, spec, local_exists) {
                Ok(plan) => Ok(WorkerChoice::Launch(plan)),
                Err(e) => Err(e),
            },
        }
    }

    /// Whether `worker` is live.
    pub fn is_live(&self, worker: u64) -> (r: bool)
        ensures
            r == self@.is_live(worker),
    {
        self.live.contains_key(&worker)
    }

    /// Whether the call `id` waits for an answer of `worker`.
    pub fn is_pending(&self, worker: u64, id: &str) -> (r: bool)
        ensures
            r == self@.slot(worker, id@).is_some(),
    {
        match self.live.get(&worker) {
            Some(calls) => calls.contains_key(id),
            None => false,
        }
    }

    /// Whether `worker` is live and owes no answer.
    pub fn is_idle(&self, worker: u64) -> (r: bool)
        ensures
            r == (self@.is_live(worker) && self@.pending[worker] == Map::<Seq<char>, T>::empty()),
    {
        match self.live.get(&worker) {
            Some(calls) => calls.is_empty(),
            None => false,
        }
    }

    /// Records a worker that was started for `module`. The worker gets a
    /// key that no worker had before, live or named by the table, and
    /// takes the module's place in the table. `None`, with the state
    /// unchanged, where the keys are used up.
    pub fn install(&mut self, module: &str) -> (r: Option<u64>)
        ensures
            final(self)@.wf(),
            match r {
                Some(worker) => {
                    &&& worker == old(self)@.next
                    &&& !old(self)@.is_live(worker)
                    &&& forall|m: Seq<char>|
                        old(self)@.table.contains_key(m) ==> old(self)@.table[m] != worker
                    &&& final(self)@ == old(self)@.installed(module@)
                },
                None => old(self)@.next == u64::MAX && final(self)@ == old(self)@,
            },
    {
        proof {
            use_type_invariant(&*self);
        }
        if self.next == u64::MAX {
            return None;
        }
        let ghost before = self@;
        let worker = self.next;
        let mut live = self.take_live();
        live.insert(worker, StrMap::new());
        self.next = worker + 1;
        self.live = live;
        let mut table = self.take_table();
        table.insert(module.to_owned(), worker);
        self.table = table;
        assert(self@.pending =~= before.pending.insert(worker, Map::empty()));
        Some(worker)
    }

    /// Registers a call with a worker: the call waits in `slot` for the
    /// answer that bears `id`.
    pub fn register(&mut self, worker: u64, id: String, slot: T) -> (r: Registered<T>)
        ensures
            final(self)@.wf(),
            final(self)@ == old(self)@.registered(worker, id@, slot),
            r == (if !old(self)@.is_live(worker) {
                Registered::Gone(slot)
            } else {
                match old(self)@.slot(worker, id@) {
                    Some(earlier) => Registered::Replaced(earlier),
                    None => Registered::Pending,
                }
            }),
    {
        proof {
            use_type_invariant(&*self);
        }
        let ghost before = self@;
        let mut live = self.take_live();
        let r = match live.remove(&worker) {
            Some(calls) => {
                let mut calls = calls;
                let earlier = calls.insert(id, slot);
                live.insert(worker, calls);
                match earlier {
                    Some(e) => Registered::Replaced(e),
                    None => Registered::Pending,
                }
            },
            None => Registered::Gone(slot),
        };
        self.live = live;
        assert(self@.pending =~= before.registered(worker, id@, slot).pending);
        r
    }

    /// Takes a call out of a worker's pending calls and hands back its
    /// slot; `None`, with the state unchanged, where no such call waits.
    pub fn take(&mut self, worker: u64, id: &str) -> (r: Option<T>)
        ensures
            final(self)@.wf(),
            r == old(self)@.slot(worker, id@),
            final(self)@ == old(self)@.taken(worker, id@),
            r.is_none() ==> final(self)@ == old(self)@,
    {
        proof {
            use_type_invariant(&*self);
        }
        let ghost before = self@;
        let mut live = self.take_live();
        let r = match live.remove(&worker) {
            Some(calls) => {
                let mut calls = calls;
                let slot = calls.remove(id);
                live.insert(worker, calls);
                slot
            },
            None => None,
        };
        self.live = live;
        proof {
            assert(self@.pending =~= before.taken(worker, id@).pending);
            if r.is_none() {
                if before.is_live(worker) {
                    assert(before.pending[worker].remove(id@) =~= before.pending[worker]);
                }
                assert(self@.pending =~= before.pending);
            }
        }
        r
    }

    /// Deregisters a call whose deadline passed, so that a late answer
    /// finds nobody to go to. The worker stays live and in the table.
    pub fn expire(&mut self, worker: u64, id: &str) -> (r: Option<T>)
        ensures
            final(self)@.wf(),
            r == old(self)@.slot(worker, id@),
            final(self)@ == old(self)@.taken(worker, id@),
            final(self)@.table == old(self)@.table,
            final(self)@.is_live(worker) == old(self)@.is_live(worker),
            final(self)@.slot(worker, id@).is_none(),
    {
        self.take(worker, id)
    }

    /// Hands an answer to the call that it bears the identifier of. An
    /// answer that no call waits for changes nothing and goes nowhere.
    pub fn deliver(&mut self, worker: u64, reply: Reply) -> (r: Option<Delivery<T>>)
        ensures
            final(self)@.wf(),
            final(self)@ == old(self)@.taken(worker, reply.id@),
            match old(self)@.slot(worker, reply.id@) {
                Some(slot) => r == Some(Delivery { slot, outcome: reply.outcome }),
                None => r.is_none() && final(self)@ == old(self)@,
            },
    {
        match self.take(worker, reply.id.as_str()) {
            Some(slot) => Some(Delivery { slot, outcome: reply.outcome }),
            None => None,
        }
    }

    /// Reads one line of a worker's output and hands the answer in it to
    /// the call that waits for it. A line that is no answer, and an answer
    /// that no call waits for, change nothing.
    pub fn deliver_line(&mut self, worker: u64, line: &str) -> (r: Option<Delivery<T>>)
        ensures
            final(self)@.wf(),
            match decoded_line(line@) {
                Some((id, outcome)) => match old(self)@.slot(worker, id) {
                    Some(slot) => {
                        &&& delivery_model(r) == Some((slot, outcome))
                        &&& final(self)@ == old(self)@.taken(worker, id)
                    },
                    None => r.is_none() && final(self)@ == old(self)@,
                },
                None => r.is_none() && final(self)@ == old(self)@,
            },
    {
        match decode_line(line) {
            Some(reply) => self.deliver(worker, reply),
            None => {
                proof {
                    use_type_invariant(&*self);
                }
                None
            },
        }
    }

    /// Records that a worker's output ended: the worker is live no more,
    /// and every call that it still owed an answer is handed back, in the
    /// rising order of the identifiers, each to be resolved as closed.
    pub fn close(&mut self, worker: u64) -> (r: Vec<Entry<T>>)
        ensures
            final(self)@.wf(),
            final(self)@ == old(self)@.closed(worker),
            !final(self)@.is_live(worker),
            sorted_keys(r@),
            distinct_keys(r@),
            map_of(r@) == (if old(self)@.is_live(worker) {
                old(self)@.pending[worker]
            } else {
                Map::<Seq<char>, T>::empty()
            }),
    {
        proof {
            use_type_invariant(&*self);
        }
        let ghost before = self@;
        let mut live = self.take_live();
        let r = match live.remove(&worker) {
            Some(calls) => {
                let mut calls = calls;
                calls.drain()
            },
            None => {
                let none: Vec<Entry<T>> = Vec::new();
                assert(map_of(none@) =~= Map::<Seq<char>, T>::empty());
                none
            },
        };
        self.live = live;
        assert(self@.pending =~= before.pending.remove(worker));
        r
    }

    /// Takes `worker` out of the table where it is the one that serves
    /// `module`, so that the next call to the module starts a worker.
    pub fn evict(&mut self, module: &str, worker: u64) -> (r: bool)
        ensures
            final(self)@.wf(),
            final(self)@ == old(self)@.evicted(module@, worker),
            r == (old(self)@.table.contains_key(module@) && old(self)@.table[module@] == worker),
            final(self)@.reusable(module@) != Some(worker),
    {
        proof {
            use_type_invariant(&*self);
        }
        let serves = match self.table.get(module) {
            Some(w) => *w == worker,
            None => false,
        };
        if serves {
            let mut table = self.take_table();
            table.remove(module);
            self.table = table;
        }
        serves
    }

    /// Cleans up after a write to a worker failed: the call is pending no
    /// more, the worker leaves the table, and the worker is dead from here
    /// on, whether or not its output has ended. The calls that it still
    /// owed an answer are handed back, each to be resolved as closed;
    /// whatever the worker writes later goes to nobody.
    pub fn fail_write(&mut self, module: &str, worker: u64, id: &str) -> (r: FailedWrite<T>)
        ensures
            final(self)@.wf(),
            final(self)@ == old(self)@.write_failed(module@, worker, id@),
            r.call == old(self)@.slot(worker, id@),
            sorted_keys(r.owed@),
            distinct_keys(r.owed@),
            map_of(r.owed@) == (if old(self)@.is_live(worker) {
                old(self)@.pending[worker].remove(id@)
            } else {
                Map::<Seq<char>, T>::empty()
            }),
            !final(self)@.is_live(worker),
            final(self)@.reusable(module@) != Some(worker),
            final(self)@.slot(worker, id@).is_none(),
    {
        let call = self.take(worker, id);
        self.evict(module, worker);
        let owed = self.close(worker);
        FailedWrite { call, owed }
    }

    /// Ends a call: maps its completion to the response and does the
    /// cleanup that the completion asks for.
    pub fn settle(&mut self, module: &str, worker: u64, id: &str, completion: Completion) -> (r:
        Result<Value, AppError>)
        ensures
            final(self)@.wf(),
            response_model(r) == conclusion(completion).0,
            final(self)@ == old(self)@.cleaned(conclusion(completion).1, module@, worker, id@),
    {
        let (response, cleanup) = conclude(completion);
        match cleanup {
            Cleanup::Nothing => {
                proof {
                    use_type_invariant(&*self);
                }
            },
            Cleanup::Evict => {
                self.evict(module, worker);
            },
            Cleanup::Deregister => {
                self.take(worker, id);
            },
        }
        response
    }

    /// Decides where a call goes before anything is done for it: to the
    /// module's live worker, to a worker that is yet to be started, or
    /// nowhere, with the failure to report.
    pub fn route(&self, module: &str, func: &str, lookup: &ModuleLookup) -> (r: Result<
        Dispatch,
        AppError,
    >)
        ensures
            dispatch_model(r) == (match call_plan(module@, func@, *lookup) {
                Ok(timeout_ms) => Ok((self@.reusable(module@), timeout_ms)),
                Err(e) => Err(e),
            }),
    {
        match plan_call(module, func, lookup) {
            Ok(plan) => Ok(Dispatch { worker: self.acquire(module), timeout_ms: plan.timeout_ms }),
            Err(e) => Err(e),
        }
    }
}

/// A worker that was just started for a module is the one that the next
/// call to the module uses.
pub proof fn lemma_started_worker_is_reused<T>(s: BridgeView<T>, module: Seq<char>)
    ensures
        s.installed(module).reusable(module) == Some(s.next),
{
}

/// Registering a call and taking a call out change neither the table nor
/// which workers are live: whatever worker a module could use before, it
/// can use after.
pub proof fn lemma_calls_keep_workers<T>(
    s: BridgeView<T>,
    worker: u64,
    id: Seq<char>,
    slot: T,
    module: Seq<char>,
)
    ensures
        s.registered(worker, id, slot).reusable(module) == s.reusable(module),
        s.taken(worker, id).reusable(module) == s.reusable(module),
        s.registered(worker, id, slot).pending.dom() == s.pending.dom(),
        s.taken(worker, id).pending.dom() == s.pending.dom(),
{
    assert(s.registered(worker, id, slot).pending.dom() =~= s.pending.dom());
    assert(s.taken(worker, id).pending.dom() =~= s.pending.dom());
}

/// Two calls to one module, one after the other, go to the same worker as
/// long as its output stays open: the first call uses the module's live
/// worker or starts one; once it was answered or its deadline passed, the
/// second call finds that worker and starts none.
pub proof fn lemma_second_call_reuses_worker<T>(
    s: BridgeView<T>,
    module: Seq<char>,
    id: Seq<char>,
    slot: T,
)
    ensures
        ({
            let started = s.reusable(module).is_none();
            let first = if started {
                s.installed(module)
            } else {
                s
            };
            let worker = if started {
                s.next
            } else {
                s.reusable(module).unwrap()
            };
            let after = first.registered(worker, id, slot).taken(worker, id);
            &&& first.reusable(module) == Some(worker)
            &&& after.reusable(module) == Some(worker)
            &&& after.pending.dom() == first.pending.dom()
            &&& after.next == first.next
        }),
{
    let started = s.reusable(module).is_none();
    let first = if started {
        s.installed(module)
    } else {
        s
    };
    let worker = if started {
        s.next
    } else {
        s.reusable(module).unwrap()
    };
    lemma_calls_keep_workers(first, worker, id, slot, module);
    lemma_calls_keep_workers(first.registered(worker, id, slot), worker, id, slot, module);
}

/// Only a call whose deadline passed ends with the timeout status, and it
/// asks for its own deregistration.
pub proof fn lemma_timeout_is_distinct(completion: Completion)
    ensures
        (conclusion(completion).0 matches Err(e) && e.0 == Status::Timeout) <==> completion
            is TimedOut,
        conclusion(Completion::TimedOut) == (
            Err::<JsonDoc, (Status, Seq<char>)>((Status::Timeout, "Worker timeout"@)),
            Cleanup::Deregister,
        ),
{
}

/// Once a call was deregistered for its deadline, an answer that bears its
/// identifier finds no slot: it is delivered to nobody and leaves the
/// state as it is. The worker stays live and stays in the table.
pub proof fn lemma_late_answer_goes_nowhere<T>(
    s: BridgeView<T>,
    module: Seq<char>,
    worker: u64,
    id: Seq<char>,
)
    ensures
        ({
            let after = s.cleaned(conclusion(Completion::TimedOut).1, module, worker, id);
            &&& after.slot(worker, id).is_none()
            &&& after.taken(worker, id) == after
            &&& after.table == s.table
            &&& after.is_live(worker) == s.is_live(worker)
            &&& after.reusable(module) == s.reusable(module)
        }),
{
    let after = s.taken(worker, id);
    if s.is_live(worker) {
        assert(after.pending[worker].remove(id) =~= after.pending[worker]);
        assert(after.taken(worker, id).pending =~= after.pending);
    }
}

/// Once a worker's output ended no call waits for it any more and no
/// module can use it. A call that was resolved as closed ends with the
/// message that says so, and its cleanup leaves the module without the
/// worker, so that the next call starts one.
pub proof fn lemma_closed_worker_owes_nothing<T>(
    s: BridgeView<T>,
    worker: u64,
    id: Seq<char>,
    module: Seq<char>,
)
    ensures
        s.closed(worker).slot(worker, id).is_none(),
        !s.closed(worker).is_live(worker),
        s.closed(worker).reusable(module) != Some(worker),
        conclusion(Completion::Closed) == (
            Err::<JsonDoc, (Status, Seq<char>)>((Status::Internal, "Worker closed"@)),
            Cleanup::Evict,
        ),
        !s.closed(worker).cleaned(Cleanup::Evict, module, worker, id).table.contains_key(module)
            || s.closed(worker).cleaned(Cleanup::Evict, module, worker, id).table[module]
            != worker,
{
}

/// Answers pair with calls by identifier alone. With two calls pending at
/// one worker under different identifiers, each answer finds the slot of
/// its own call, whichever of the two arrives first.
pub proof fn lemma_answers_pair_by_identifier<T>(
    s: BridgeView<T>,
    worker: u64,
    a: Seq<char>,
    slot_a: T,
    b: Seq<char>,
    slot_b: T,
)
    requires
        s.is_live(worker),
        a != b,
    ensures
        ({
            let both = s.registered(worker, a, slot_a).registered(worker, b, slot_b);
            &&& both.slot(worker, a) == Some(slot_a)
            &&& both.slot(worker, b) == Some(slot_b)
            &&& both.taken(worker, b).slot(worker, a) == Some(slot_a)
            &&& both.taken(worker, a).slot(worker, b) == Some(slot_b)
            &&& both.taken(worker, a).taken(worker, b).slot(worker, a).is_none()
            &&& both.taken(worker, b).taken(worker, a).slot(worker, b).is_none()
        }),
{
}

/// A call to a module that has no directory or no description is reported
/// as not found, and no worker is looked for or asked for it.
pub proof fn lemma_unknown_module_is_not_found(
    module: Seq<char>,
    func: Seq<char>,
    lookup: ModuleLookup,
)
    requires
        lookup is NoDirectory || lookup is NoConfig,
    ensures
        call_plan(module, func, lookup) matches Err(e) && e.0 == Status::NotFound,
{
}

/// The key that a started worker gets was never given out before: it is
/// the key of no live worker and of no worker that the table names, dead
/// or not. So where a module's dead worker is replaced, the new worker
/// differs from the old one, and evicting the old one leaves the new one
/// in the table.
pub proof fn lemma_fresh_key_is_new<T>(s: BridgeView<T>, module: Seq<char>, other: Seq<char>)
    requires
        s.wf(),
        s.table.contains_key(other),
    ensures
        s.table[other] != s.next,
        !s.is_live(s.next),
        s.installed(module).table[module] != s.table[other],
        s.installed(module).evicted(module, s.table[other]) == s.installed(module),
        s.installed(module).evicted(module, s.table[other]).reusable(module) == Some(s.next),
{
}

/// After a failed write the worker is dead: no module can use it, no call
/// waits for it, and an answer that it writes later finds no slot and
/// leaves the state as it is.
pub proof fn lemma_failed_write_kills_worker<T>(
    s: BridgeView<T>,
    module: Seq<char>,
    worker: u64,
    id: Seq<char>,
    later: Seq<char>,
)
    ensures
        !s.write_failed(module, worker, id).is_live(worker),
        s.write_failed(module, worker, id).reusable(module) != Some(worker),
        s.write_failed(module, worker, id).slot(worker, later).is_none(),
        s.write_failed(module, worker, id).taken(worker, later) == s.write_failed(
            module,
            worker,
            id,
        ),
{
}

} // verus!
