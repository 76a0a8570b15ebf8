//! The shared coordinator of epoch-based reclamation.
//!
//! The [`Collector`] owns the global epoch, one reclamation queue per slot,
//! the registry of thread states, and the in-progress-collection counter.
//! A thread registers once, pins itself through [`Collector::shield`],
//! retires cleanup actions while pinned, and any thread may request a
//! collection cycle.  A cycle advances the global generation only when every
//! pinned thread has caught up to it and no other drain is running; on
//! success it detaches the queue that is two generations behind the new one
//! and hands its actions out for execution.
//!
//! The safety, conservation, liveness and monotonicity laws of the protocol
//! are stated and proved at the bottom of this module, over the abstract
//! [`CollectorView`] of the collector state.

use crate::deferred::Deferred;
use crate::drain_queue::DrainQueue;
use crate::epoch::Epoch;
use crate::shield::Shield;
use crate::thread_state::ThreadState;
use vstd::arithmetic::div_mod::lemma_add_mod_noop;
use vstd::multiset::Multiset;
use vstd::prelude::*;

verus! {

/// The abstract state of a [`Collector`]: the global epoch, the
/// in-progress-collection counter, the registered thread records, and the
/// contents of the three reclamation queues by slot.
#[verifier::ext_equal]
pub ghost struct CollectorView {
    /// The global epoch; its pinned marker is always clear.
    pub global: Epoch,
    /// How many drains are currently in progress.
    pub pinned: u64,
    /// The registered per-thread pin records, indexed by thread id.
    pub threads: Seq<ThreadState>,
    /// The pending actions of each of the three reclamation slots.
    pub queues: Seq<Seq<Deferred>>,
}

impl CollectorView {
    /// The current global generation.
    pub open spec fn generation(self) -> u64 {
        self.global.generation
    }

    /// The slot that a cycle starting from this state would drain: the one
    /// two generations behind the generation the cycle advances to.
    pub open spec fn drain_slot(self) -> int {
        (self.generation() + 2) % 3
    }

    /// The state is well formed: the global marker is clear, no drain is
    /// running between calls, every thread record is consistent and lags no
    /// further than the global generation, and every queued action sits in
    /// the slot of its retirement generation, which the global generation
    /// has reached.
    pub open spec fn wf(self) -> bool {
        &&& !self.global.pinned
        &&& self.pinned == 0
        &&& self.queues.len() == 3
        &&& forall|t: int|
            0 <= t < self.threads.len() ==> (#[trigger] self.threads[t]).inv()
                && self.threads[t].generation() <= self.generation()
        &&& forall|s: int, i: int|
            0 <= s < 3 && 0 <= i < self.queues[s].len() ==> {
                let d = #[trigger] self.queues[s][i];
                &&& d.retired_at@ <= self.generation()
                &&& (d.retired_at@ as int) % 3 == s
            }
    }

    /// The advancement precondition: every pinned thread has observed the
    /// current global generation while no drain runs, and the generation
    /// counter has room for a full cycle.
    pub open spec fn can_advance(self) -> bool {
        &&& self.generation() < u64::MAX - 1
        &&& forall|t: int|
            0 <= t < self.threads.len() && (#[trigger] self.threads[t]).pinned()
                ==> self.threads[t].generation() == self.generation() && self.pinned == 0
    }

    /// The state after a successful cycle: the generation advanced by one
    /// and the drained slot emptied.
    pub open spec fn cycled(self) -> CollectorView {
        CollectorView {
            global: Epoch { generation: (self.generation() + 1) as u64, pinned: false },
            queues: self.queues.update(self.drain_slot(), Seq::<Deferred>::empty()),
            ..self
        }
    }

    /// The state after one collection cycle attempt: advanced and drained
    /// when the advancement precondition holds, unchanged otherwise.
    pub open spec fn cycle_state(self) -> CollectorView {
        if self.can_advance() {
            self.cycled()
        } else {
            self
        }
    }

    /// The batch a collection cycle attempt hands out: the contents of the
    /// drained slot on success, nothing otherwise.
    pub open spec fn cycle_batch(self) -> Seq<Deferred> {
        if self.can_advance() {
            self.queues[self.drain_slot()]
        } else {
            Seq::<Deferred>::empty()
        }
    }

    /// Every action currently waiting in some reclamation queue.
    pub open spec fn pending(self) -> Multiset<Deferred> {
        self.queues[0].to_multiset().add(self.queues[1].to_multiset()).add(
            self.queues[2].to_multiset(),
        )
    }
}

/// The slots of three consecutive generations are pairwise distinct and lie
/// in `{0, 1, 2}`.
proof fn lemma_mod3_neighbors(g: int)
    requires
        g >= 0,
    ensures
        0 <= g % 3 < 3,
        (g + 1) % 3 != g % 3,
        (g + 2) % 3 != g % 3,
        (g + 1) % 3 != (g + 2) % 3,
        0 <= (g + 1) % 3 < 3,
        0 <= (g + 2) % 3 < 3,
{
    lemma_add_mod_noop(g, 1, 3);
    lemma_add_mod_noop(g, 2, 3);
    lemma_add_mod_noop(g + 1, 1, 3);
}

/// Well-formedness is preserved by a collection cycle attempt.
pub proof fn lemma_cycle_preserves_wf(v: CollectorView)
    requires
        v.wf(),
    ensures
        v.cycle_state().wf(),
{
    if v.can_advance() {
        let w = v.cycled();
        assert forall|s: int, i: int|
            0 <= s < 3 && 0 <= i < w.queues[s].len() implies {
            let d = #[trigger] w.queues[s][i];
            &&& d.retired_at@ <= w.generation()
            &&& (d.retired_at@ as int) % 3 == s
        } by {
            assert(w.queues[s][i] == v.queues[s][i]);
        }
    }
}

/// Safety: every action a successful cycle hands out was retired strictly
/// before the generation recorded by every thread that is still pinned, so
/// no pinned reader can still hold a reference the action is about to
/// reclaim.
pub proof fn lemma_drain_safety(v: CollectorView, i: int, t: int)
    requires
        v.wf(),
        0 <= i < v.cycle_batch().len(),
        0 <= t < v.threads.len(),
        v.threads[t].pinned(),
    ensures
        v.cycle_batch()[i].retired_at@ < v.threads[t].generation(),
{
    let g = v.generation() as int;
    let d = v.cycle_batch()[i];
    lemma_mod3_neighbors(g);
    assert(d.retired_at@ <= g && (d.retired_at@ as int) % 3 == (g + 2) % 3);
    assert(v.threads[t].generation() == v.generation());
    assert(d.retired_at@ != g);
}

/// No double execution: a collection cycle removes from the pending queues
/// exactly the batch it hands out, so an action is handed out at most once
/// and none is lost.  Together with the consuming [`Deferred::call`] this
/// means no retired action ever runs twice.
///
/// [`Deferred::call`]: crate::Deferred::call
pub proof fn lemma_cycle_conservation(v: CollectorView)
    requires
        v.wf(),
    ensures
        v.cycle_state().pending().add(v.cycle_batch().to_multiset()) == v.pending(),
{
    broadcast use vstd::multiset::group_multiset_axioms;

    assert(Seq::<Deferred>::empty().to_multiset() =~= Multiset::<Deferred>::empty()) by {
        Seq::<Deferred>::empty().to_multiset_ensures();
    }
    if v.can_advance() {
        lemma_mod3_neighbors(v.generation() as int);
    }
    assert(v.cycle_state().pending().add(v.cycle_batch().to_multiset()) =~= v.pending());
}

/// Liveness: once every thread is unpinned, three further collection
/// cycles drain all three slots, hand out every pending action, and leave
/// the queues empty — so if threads keep unpinning and cycles keep coming,
/// every retired action eventually executes.
pub proof fn lemma_liveness(v: CollectorView)
    requires
        v.wf(),
        forall|t: int| 0 <= t < v.threads.len() ==> !(#[trigger] v.threads[t]).pinned(),
        v.generation() + 3 < u64::MAX,
    ensures
        ({
            let v1 = v.cycle_state();
            let v2 = v1.cycle_state();
            let v3 = v2.cycle_state();
            &&& v3.pending() == Multiset::<Deferred>::empty()
            &&& v.cycle_batch().to_multiset().add(v1.cycle_batch().to_multiset()).add(
                v2.cycle_batch().to_multiset(),
            ) == v.pending()
        }),
{
    broadcast use vstd::multiset::group_multiset_axioms;

    let g = v.generation() as int;
    lemma_mod3_neighbors(g);
    lemma_mod3_neighbors(g + 1);
    lemma_mod3_neighbors(g + 2);
    lemma_add_mod_noop(g + 1, 2, 3);
    lemma_add_mod_noop(g + 2, 2, 3);
    lemma_cycle_preserves_wf(v);
    let v1 = v.cycle_state();
    lemma_cycle_preserves_wf(v1);
    let v2 = v1.cycle_state();
    lemma_cycle_preserves_wf(v2);
    let v3 = v2.cycle_state();
    assert(v.can_advance());
    assert(v1.can_advance());
    assert(v2.can_advance());
    assert(Seq::<Deferred>::empty().to_multiset() =~= Multiset::<Deferred>::empty()) by {
        Seq::<Deferred>::empty().to_multiset_ensures();
    }
    let s0 = v.drain_slot();
    let s1 = v1.drain_slot();
    let s2 = v2.drain_slot();
    assert(s1 == (g + 3) % 3 && s2 == (g + 4) % 3);
    assert(s0 != s1 && s0 != s2 && s1 != s2) by {
        lemma_add_mod_noop(g, 3, 3);
        lemma_add_mod_noop(g + 1, 3, 3);
        vstd::arithmetic::div_mod::lemma_mod_self_0(3);
    }
    assert(v3.queues[0] == Seq::<Deferred>::empty() && v3.queues[1] == Seq::<Deferred>::empty()
        && v3.queues[2] == Seq::<Deferred>::empty());
    assert(v3.pending() =~= Multiset::<Deferred>::empty());
    assert(v.cycle_batch() == v.queues[s0] && v1.cycle_batch() == v.queues[s1]
        && v2.cycle_batch() == v.queues[s2]);
    assert(v.cycle_batch().to_multiset().add(v1.cycle_batch().to_multiset()).add(
        v2.cycle_batch().to_multiset(),
    ) =~= v.pending());
}

/// Monotonicity: a collection cycle attempt never decreases the global
/// generation, so the generation any thread observes never goes backwards.
pub proof fn lemma_generation_monotonic(v: CollectorView)
    ensures
        v.cycle_state().generation() >= v.generation(),
{
}

/// The shared coordinator: global epoch, drain counter, thread registry and
/// the three reclamation queues.
pub struct Collector {
    global_epoch: Epoch,
    pinned: u64,
    threads: Vec<ThreadState>,
    deferred0: DrainQueue<Deferred>,
    deferred1: DrainQueue<Deferred>,
    deferred2: DrainQueue<Deferred>,
}

impl View for Collector {
    type V = CollectorView;

    closed spec fn view(&self) -> CollectorView {
        CollectorView {
            global: self.global_epoch,
            pinned: self.pinned,
            threads: self.threads@,
            queues: seq![self.deferred0@, self.deferred1@, self.deferred2@],
        }
    }
}

impl Default for Collector {
    /// The same fresh state as [`Collector::new`].
    fn default() -> (c: Collector)
        ensures
            c@.wf(),
            c@.generation() == 0,
            c@.pinned == 0,
            c@.threads == Seq::<ThreadState>::empty(),
            c@.queues == seq![
                Seq::<Deferred>::empty(),
                Seq::<Deferred>::empty(),
                Seq::<Deferred>::empty(),
            ],
    {
        Collector::new()
    }
}

impl Collector {
    /// A fresh collector: generation zero, no drain in progress, no
    /// registered thread, three empty reclamation queues.
    pub fn new() -> (c: Collector)
        ensures
            c@.wf(),
            c@.generation() == 0,
            c@.pinned == 0,
            c@.threads == Seq::<ThreadState>::empty(),
            c@.queues == seq![
                Seq::<Deferred>::empty(),
                Seq::<Deferred>::empty(),
                Seq::<Deferred>::empty(),
            ],
    {
        Collector {
            global_epoch: Epoch::zero(),
            pinned: 0,
            threads: Vec::new(),
            deferred0: DrainQueue::new(),
            deferred1: DrainQueue::new(),
            deferred2: DrainQueue::new(),
        }
    }

    /// Registers the calling thread, appending a fresh unpinned record to
    /// the registry, and returns the thread id that names it from now on.
    pub fn register_thread(&mut self) -> (thread: usize)
        requires
            old(self)@.wf(),
        ensures
            final(self)@.wf(),
            thread == old(self)@.threads.len(),
            final(self)@.threads == old(self)@.threads.push(ThreadState::initial()),
            final(self)@.global == old(self)@.global,
            final(self)@.pinned == old(self)@.pinned,
            final(self)@.queues == old(self)@.queues,
    {
        let thread = self.threads.len();
        self.threads.push(ThreadState::new());
        proof {
            assert forall|t: int|
                0 <= t < self@.threads.len() implies (#[trigger] self@.threads[t]).inv()
                && self@.threads[t].generation() <= self@.generation() by {
                if t < old(self)@.threads.len() {
                    assert(old(self)@.threads[t].inv());
                }
            }
        }
        thread
    }

    /// The pin record of a registered thread.
    pub fn thread_state(&self, thread: usize) -> (ts: &ThreadState)
        requires
            thread < self@.threads.len(),
        ensures
            *ts == self@.threads[thread as int],
    {
        &self.threads[thread]
    }

    /// The global epoch as any thread may read it.
    pub fn load_epoch_relaxed(&self) -> (e: Epoch)
        ensures
            e == self@.global,
    {
        self.global_epoch
    }

    /// Whether an advancement attempt is worth making: the queue of the
    /// current generation holds at least one pending action.
    pub fn should_advance(&self) -> (r: bool)
        requires
            self@.wf(),
        ensures
            r == (self@.queues[self@.global.slot()].len() != 0),
    {
        let slot = self.global_epoch.into_raw();
        self.queue_len(slot) != 0
    }

    /// Pins the thread and returns the shield that stands for the pin.
    /// A second shield on the same thread deepens the pin instead of
    /// replacing it.
    pub fn shield(&mut self, thread: usize) -> (s: Shield)
        requires
            old(self)@.wf(),
            thread < old(self)@.threads.len(),
            old(self)@.threads[thread as int].depth < u64::MAX,
        ensures
            final(self)@.wf(),
            s.thread_id() == thread,
            final(self)@.threads[thread as int].pinned(),
            final(self)@.threads == old(self)@.threads.update(
                thread as int,
                old(self)@.threads[thread as int].entered(old(self)@.global),
            ),
            final(self)@.global == old(self)@.global,
            final(self)@.pinned == old(self)@.pinned,
            final(self)@.queues == old(self)@.queues,
    {
        self.enter_thread(thread);
        Shield::new(thread)
    }

    /// Takes one pin on the given thread at the current global epoch.
    pub(crate) fn enter_thread(&mut self, thread: usize)
        requires
            old(self)@.wf(),
            thread < old(self)@.threads.len(),
            old(self)@.threads[thread as int].depth < u64::MAX,
        ensures
            final(self)@.wf(),
            final(self)@.threads[thread as int].pinned(),
            final(self)@.threads == old(self)@.threads.update(
                thread as int,
                old(self)@.threads[thread as int].entered(old(self)@.global),
            ),
            final(self)@.global == old(self)@.global,
            final(self)@.pinned == old(self)@.pinned,
            final(self)@.queues == old(self)@.queues,
    {
        let global = self.global_epoch;
        let mut ts = self.threads[thread];
        ts.enter(global);
        self.threads[thread] = ts;
    }

    /// Releases one pin on the given thread.
    pub(crate) fn exit_thread(&mut self, thread: usize)
        requires
            old(self)@.wf(),
            thread < old(self)@.threads.len(),
            old(self)@.threads[thread as int].depth >= 1,
        ensures
            final(self)@.wf(),
            final(self)@.threads == old(self)@.threads.update(
                thread as int,
                old(self)@.threads[thread as int].exited(),
            ),
            final(self)@.global == old(self)@.global,
            final(self)@.pinned == old(self)@.pinned,
            final(self)@.queues == old(self)@.queues,
    {
        let mut ts = self.threads[thread];
        ts.exit();
        self.threads[thread] = ts;
    }

    /// Schedules a cleanup action: stamps it with the current generation
    /// and pushes it into the queue that generation selects.  It never
    /// blocks and promises nothing about when the action runs beyond the
    /// safety law below.
    pub fn retire(&mut self, deferred: Deferred)
        requires
            old(self)@.wf(),
        ensures
            final(self)@.wf(),
            final(self)@.queues == old(self)@.queues.update(
                old(self)@.global.slot(),
                old(self)@.queues[old(self)@.global.slot()].push(
                    Deferred {
                        action: deferred.action,
                        retired_at: Ghost(old(self)@.generation()),
                    },
                ),
            ),
            final(self)@.global == old(self)@.global,
            final(self)@.pinned == old(self)@.pinned,
            final(self)@.threads == old(self)@.threads,
    {
        let epoch = self.global_epoch;
        let slot = epoch.into_raw();
        let mut deferred = deferred;
        deferred.retired_at = Ghost(epoch.generation);
        self.queue_push(slot, deferred);
    }

    /// One advancement attempt: scan every registered thread, and advance
    /// the global generation by one exactly when every pinned thread has
    /// observed it and no drain is in progress.  Failure is silent and
    /// expected; nothing changes then.
    pub fn try_advance(&mut self) -> (r: Result<Epoch, ()>)
        requires
            old(self)@.wf(),
        ensures
            final(self)@.wf(),
            r is Ok <==> old(self)@.can_advance(),
            old(self)@.generation() <= final(self)@.generation(),
            r matches Ok(e) ==> {
                &&& e == final(self)@.global
                &&& final(self)@.generation() == old(self)@.generation() + 1
                &&& !final(self)@.global.pinned
                &&& final(self)@.threads == old(self)@.threads
                &&& final(self)@.pinned == old(self)@.pinned
                &&& final(self)@.queues == old(self)@.queues
            },
            r is Err ==> *final(self) == *old(self),
    {
        let global_epoch = self.global_epoch;
        let n = self.threads.len();
        let mut can_collect = true;
        let mut i: usize = 0;
        while i < n
            invariant
                i <= n,
                n == self@.threads.len(),
                self@.wf(),
                global_epoch == self@.global,
                can_collect <==> forall|t: int|
                    0 <= t < i && (#[trigger] self@.threads[t]).pinned()
                        ==> self@.threads[t].generation() == self@.generation()
                        && self@.pinned == 0,
            decreases n - i,
        {
            let state = self.threads[i];
            let epoch = state.load_epoch_relaxed();
            if epoch.is_pinned() {
                if !(epoch.unpinned() == global_epoch && self.pinned == 0) {
                    can_collect = false;
                }
            }
            i = i + 1;
        }
        if can_collect && global_epoch.generation < u64::MAX - 1 {
            let next = global_epoch.next();
            self.global_epoch = next;
            Ok(next)
        } else {
            Err(())
        }
    }

    /// One explicit collection cycle attempt; a no-op when the safety
    /// condition is not met.  The returned batch holds the actions that
    /// have become safe to execute.
    pub fn collect(&mut self) -> (batch: Vec<Deferred>)
        requires
            old(self)@.wf(),
        ensures
            final(self)@.wf(),
            final(self)@ == old(self)@.cycle_state(),
            batch@ == old(self)@.cycle_batch(),
            old(self)@.generation() <= final(self)@.generation(),
    {
        self.try_cycle()
    }

    /// One advancement-plus-drain cycle: when the advancement succeeds,
    /// detach the queue of the slot two generations behind the new one and
    /// hand its actions out.
    pub fn try_cycle(&mut self) -> (batch: Vec<Deferred>)
        requires
            old(self)@.wf(),
        ensures
            final(self)@.wf(),
            final(self)@ == old(self)@.cycle_state(),
            batch@ == old(self)@.cycle_batch(),
            old(self)@.generation() <= final(self)@.generation(),
    {
        match self.try_advance() {
            Ok(epoch) => {
                let slot = (epoch.into_raw() + 1) % 3;
                proof {
                    lemma_add_mod_noop(old(self)@.generation() + 1, 1, 3);
                    assert(slot == old(self)@.drain_slot());
                }
                let batch = self.internal_collect(slot);
                proof {
                    assert(self@ =~= old(self)@.cycled());
                }
                batch
            },
            Err(()) => Vec::new(),
        }
    }

    /// Detaches and returns the batch of the given slot, guarding the drain
    /// with the in-progress counter.
    fn internal_collect(&mut self, slot: usize) -> (batch: Vec<Deferred>)
        requires
            slot < 3,
            old(self)@.pinned < u64::MAX,
            old(self)@.queues.len() == 3,
        ensures
            batch@ == old(self)@.queues[slot as int],
            final(self)@.queues == old(self)@.queues.update(
                slot as int,
                Seq::<Deferred>::empty(),
            ),
            final(self)@.global == old(self)@.global,
            final(self)@.pinned == old(self)@.pinned,
            final(self)@.threads == old(self)@.threads,
    {
        self.pinned = self.pinned + 1;
        let batch = self.queue_swap_out(slot);
        self.pinned = self.pinned - 1;
        batch
    }

    /// The number of actions pending in the given slot.
    fn queue_len(&self, slot: usize) -> (n: usize)
        requires
            slot < 3,
            self@.queues.len() == 3,
        ensures
            n == self@.queues[slot as int].len(),
    {
        match slot {
            0 => self.deferred0.len(),
            1 => self.deferred1.len(),
            _ => self.deferred2.len(),
        }
    }

    /// Appends an action to the queue of the given slot.
    fn queue_push(&mut self, slot: usize, deferred: Deferred)
        requires
            slot < 3,
            old(self)@.queues.len() == 3,
        ensures
            final(self)@.queues == old(self)@.queues.update(
                slot as int,
                old(self)@.queues[slot as int].push(deferred),
            ),
            final(self)@.global == old(self)@.global,
            final(self)@.pinned == old(self)@.pinned,
            final(self)@.threads == old(self)@.threads,
    {
        match slot {
            0 => self.deferred0.push(deferred),
            1 => self.deferred1.push(deferred),
            _ => self.deferred2.push(deferred),
        }
        proof {
            assert(self@.queues =~= old(self)@.queues.update(
                slot as int,
                old(self)@.queues[slot as int].push(deferred),
            ));
        }
    }

    /// Detaches the whole batch of the given slot, leaving it empty.
    fn queue_swap_out(&mut self, slot: usize) -> (batch: Vec<Deferred>)
        requires
            slot < 3,
            old(self)@.queues.len() == 3,
        ensures
            batch@ == old(self)@.queues[slot as int],
            final(self)@.queues == old(self)@.queues.update(
                slot as int,
                Seq::<Deferred>::empty(),
            ),
            final(self)@.global == old(self)@.global,
            final(self)@.pinned == old(self)@.pinned,
            final(self)@.threads == old(self)@.threads,
    {
        let batch = match slot {
            0 => self.deferred0.swap_out(),
            1 => self.deferred1.swap_out(),
            _ => self.deferred2.swap_out(),
        };
        proof {
            assert(self@.queues =~= old(self)@.queues.update(
                slot as int,
                Seq::<Deferred>::empty(),
            ));
        }
        batch
    }
}

} // verus!
