//! The pin tokens threads hold while they read protected data.
//!
//! A [`Shield`] stands for one pin of one registered thread: while any
//! shield of a thread is alive, the collector counts the thread as pinned.
//! Releasing the shield through [`Shield::unpin`] consumes it, so each pin
//! is released exactly once.  A [`CowShield`] lets an operation accept
//! either an owned shield or a borrowed one, pinning again only when it has
//! to take ownership.

use crate::collector::Collector;
use crate::deferred::Deferred;
use vstd::prelude::*;

verus! {

/// One pin held by one registered thread.
pub struct Shield {
    thread: usize,
}

impl Shield {
    /// The id of the thread this shield pins.
    pub closed spec fn thread_id(self) -> usize {
        self.thread
    }

    /// Wraps a freshly taken pin of the given thread.
    pub(crate) fn new(thread: usize) -> (s: Shield)
        ensures
            s.thread_id() == thread,
    {
        Shield { thread }
    }

    /// The id of the thread this shield pins.
    pub fn thread(&self) -> (thread: usize)
        ensures
            thread == self.thread_id(),
    {
        self.thread
    }

    /// Schedules a cleanup action with the collector while the thread is
    /// pinned.
    pub fn retire(&self, collector: &mut Collector, deferred: Deferred)
        requires
            old(collector)@.wf(),
            self.thread_id() < old(collector)@.threads.len(),
            old(collector)@.threads[self.thread_id() as int].pinned(),
        ensures
            final(collector)@.wf(),
            final(collector)@.queues == old(collector)@.queues.update(
                old(collector)@.global.slot(),
                old(collector)@.queues[old(collector)@.global.slot()].push(
                    (Deferred {
                        action: deferred.action,
                        retired_at: Ghost(old(collector)@.generation()),
                    }),
                ),
            ),
            final(collector)@.global == old(collector)@.global,
            final(collector)@.pinned == old(collector)@.pinned,
            final(collector)@.threads == old(collector)@.threads,
    {
        collector.retire(deferred);
    }

    /// Unpins and immediately re-pins the thread, so that an outermost pin
    /// re-samples the current global generation.
    pub fn repin(&mut self, collector: &mut Collector)
        requires
            old(collector)@.wf(),
            old(self).thread_id() < old(collector)@.threads.len(),
            old(collector)@.threads[old(self).thread_id() as int].depth >= 1,
        ensures
            final(self).thread_id() == old(self).thread_id(),
            final(collector)@.wf(),
            final(collector)@.threads == old(collector)@.threads.update(
                old(self).thread_id() as int,
                old(collector)@.threads[old(self).thread_id() as int].exited().entered(
                    old(collector)@.global,
                ),
            ),
            final(collector)@.global == old(collector)@.global,
            final(collector)@.pinned == old(collector)@.pinned,
            final(collector)@.queues == old(collector)@.queues,
    {
        collector.exit_thread(self.thread);
        collector.enter_thread(self.thread);
    }

    /// Unpins the thread, runs the caller's action — which may block for as
    /// long as it likes, since the thread holds up no advancement while
    /// unpinned — then re-pins and returns the action's result.
    pub fn repin_after<R, F: FnOnce() -> R>(&mut self, collector: &mut Collector, f: F) -> (r: R)
        requires
            call_requires(f, ()),
            old(collector)@.wf(),
            old(self).thread_id() < old(collector)@.threads.len(),
            old(collector)@.threads[old(self).thread_id() as int].depth >= 1,
        ensures
            call_ensures(f, (), r),
            final(self).thread_id() == old(self).thread_id(),
            final(collector)@.wf(),
            final(collector)@.threads == old(collector)@.threads.update(
                old(self).thread_id() as int,
                old(collector)@.threads[old(self).thread_id() as int].exited().entered(
                    old(collector)@.global,
                ),
            ),
            final(collector)@.global == old(collector)@.global,
            final(collector)@.pinned == old(collector)@.pinned,
            final(collector)@.queues == old(collector)@.queues,
    {
        collector.exit_thread(self.thread);
        let value = f();
        collector.enter_thread(self.thread);
        value
    }

    /// Releases the pin this shield stands for, consuming the shield.
    /// The thread becomes unpinned once its last shield is released.
    pub fn unpin(self, collector: &mut Collector)
        requires
            old(collector)@.wf(),
            self.thread_id() < old(collector)@.threads.len(),
            old(collector)@.threads[self.thread_id() as int].depth >= 1,
        ensures
            final(collector)@.wf(),
            final(collector)@.threads == old(collector)@.threads.update(
                self.thread_id() as int,
                old(collector)@.threads[self.thread_id() as int].exited(),
            ),
            final(collector)@.global == old(collector)@.global,
            final(collector)@.pinned == old(collector)@.pinned,
            final(collector)@.queues == old(collector)@.queues,
    {
        collector.exit_thread(self.thread);
    }
}

/// A shield that is either owned or borrowed, so that an operation can
/// accept a caller that may or may not already hold one.
pub enum CowShield<'shield> {
    /// The operation owns the shield and releases it itself.
    Owned(Shield),
    /// The operation borrows a shield its caller keeps holding.
    Borrowed(&'shield Shield),
}

impl<'shield> CowShield<'shield> {
    /// The shield this value gives access to.
    pub open spec fn spec_get(self) -> Shield {
        match self {
            CowShield::Owned(shield) => shield,
            CowShield::Borrowed(shield) => *shield,
        }
    }

    /// Wraps an owned shield.
    pub fn new_owned(shield: Shield) -> (cow: CowShield<'shield>)
        ensures
            cow == CowShield::<'shield>::Owned(shield),
    {
        CowShield::Owned(shield)
    }

    /// Wraps a borrowed shield.
    pub fn new_borrowed(shield: &'shield Shield) -> (cow: CowShield<'shield>)
        ensures
            cow == CowShield::<'shield>::Borrowed(shield),
    {
        CowShield::Borrowed(shield)
    }

    /// Takes ownership of a shield: an owned shield is handed through
    /// unchanged, while a borrowed one is cloned by pinning its thread a
    /// second time.
    pub fn into_owned(self, collector: &mut Collector) -> (shield: Shield)
        requires
            old(collector)@.wf(),
            self.spec_get().thread_id() < old(collector)@.threads.len(),
            old(collector)@.threads[self.spec_get().thread_id() as int].depth < u64::MAX,
        ensures
            final(collector)@.wf(),
            shield.thread_id() == self.spec_get().thread_id(),
            self matches CowShield::Owned(s) ==> final(collector)@ == old(collector)@
                && shield == s,
            self matches CowShield::Borrowed(s) ==> final(collector)@.threads
                == old(collector)@.threads.update(
                s.thread_id() as int,
                old(collector)@.threads[s.thread_id() as int].entered(old(collector)@.global),
            ) && final(collector)@.global == old(collector)@.global
                && final(collector)@.pinned == old(collector)@.pinned
                && final(collector)@.queues == old(collector)@.queues,
    {
        match self {
            CowShield::Owned(shield) => shield,
            CowShield::Borrowed(shield) => collector.shield(shield.thread()),
        }
    }

    /// A reference to the shield, usable for read-only operations without
    /// taking ownership.
    pub fn get(&self) -> (shield: &Shield)
        ensures
            *shield == self.spec_get(),
    {
        match self {
            CowShield::Owned(shield) => shield,
            CowShield::Borrowed(shield) => shield,
        }
    }
}

} // verus!
