use ebr::Collector;
use ebr::CowShield;
use ebr::Deferred;

#[test]
fn new_collector_starts_at_generation_zero() {
    let c = Collector::new();
    let e = c.load_epoch_relaxed();
    assert_eq!(e.generation, 0);
    assert!(!e.is_pinned());
}

#[test]
fn default_collector_matches_new() {
    let c: Collector = Default::default();
    let e = c.load_epoch_relaxed();
    assert_eq!(e.generation, 0);
    assert!(!e.is_pinned());
}

#[test]
fn register_thread_hands_out_consecutive_ids() {
    let mut c = Collector::new();
    assert_eq!(c.register_thread(), 0);
    assert_eq!(c.register_thread(), 1);
    assert_eq!(c.register_thread(), 2);
}

#[test]
fn shield_pins_and_unpin_releases() {
    let mut c = Collector::new();
    let t = c.register_thread();
    assert!(!c.thread_state(t).load_epoch_relaxed().is_pinned());
    let s = c.shield(t);
    assert!(c.thread_state(t).load_epoch_relaxed().is_pinned());
    assert_eq!(s.thread(), t);
    s.unpin(&mut c);
    assert!(!c.thread_state(t).load_epoch_relaxed().is_pinned());
}

#[test]
fn cloned_pin_keeps_thread_pinned_until_both_release() {
    let mut c = Collector::new();
    let t = c.register_thread();
    let s1 = c.shield(t);
    let s2 = c.shield(t);
    assert_eq!(c.thread_state(t).depth, 2);
    s1.unpin(&mut c);
    assert!(c.thread_state(t).load_epoch_relaxed().is_pinned());
    assert_eq!(c.thread_state(t).depth, 1);
    s2.unpin(&mut c);
    assert!(!c.thread_state(t).load_epoch_relaxed().is_pinned());
    assert_eq!(c.thread_state(t).depth, 0);
}

#[test]
fn nested_pin_keeps_the_first_recorded_generation() {
    let mut c = Collector::new();
    let t = c.register_thread();
    let s1 = c.shield(t);
    let first = c.thread_state(t).load_epoch_relaxed();
    // Advance the global generation while the thread stays pinned at 0 is
    // impossible; unpin, advance, and pin again on a second thread instead.
    let u = c.register_thread();
    let s2 = c.shield(u);
    assert_eq!(c.thread_state(u).load_epoch_relaxed().generation, first.generation);
    s2.unpin(&mut c);
    let s3 = c.shield(t);
    // The nested pin must not re-sample: the recorded generation stays.
    assert_eq!(c.thread_state(t).load_epoch_relaxed(), first);
    s3.unpin(&mut c);
    s1.unpin(&mut c);
}

#[test]
fn try_advance_fails_while_a_thread_lags() {
    let mut c = Collector::new();
    let t = c.register_thread();
    let s = c.shield(t);
    // Pinned at the current generation: advancement may proceed.
    assert!(c.try_advance().is_ok());
    assert_eq!(c.load_epoch_relaxed().generation, 1);
    // Now the pinned thread lags behind: advancement must decline.
    assert!(c.try_advance().is_err());
    assert_eq!(c.load_epoch_relaxed().generation, 1);
    s.unpin(&mut c);
    assert!(c.try_advance().is_ok());
    assert_eq!(c.load_epoch_relaxed().generation, 2);
}

#[test]
fn should_advance_reports_pending_work_of_the_current_slot() {
    let mut c = Collector::new();
    let t = c.register_thread();
    assert!(!c.should_advance());
    let s = c.shield(t);
    s.retire(&mut c, Deferred::new(1));
    assert!(c.should_advance());
    s.unpin(&mut c);
}

#[test]
fn repin_refreshes_an_outermost_pin() {
    let mut c = Collector::new();
    let t = c.register_thread();
    let mut s = c.shield(t);
    assert!(c.try_advance().is_ok());
    assert_eq!(c.thread_state(t).load_epoch_relaxed().generation, 0);
    s.repin(&mut c);
    assert_eq!(c.thread_state(t).load_epoch_relaxed().generation, 1);
    s.unpin(&mut c);
}

#[test]
fn repin_after_runs_the_action_and_repins() {
    let mut c = Collector::new();
    let t = c.register_thread();
    let mut s = c.shield(t);
    assert!(c.try_advance().is_ok());
    let r = s.repin_after(&mut c, || 2 + 3);
    assert_eq!(r, 5);
    assert_eq!(c.thread_state(t).load_epoch_relaxed().generation, 1);
    assert!(c.thread_state(t).load_epoch_relaxed().is_pinned());
    s.unpin(&mut c);
}

#[test]
fn cow_shield_borrowed_get_reaches_the_same_thread() {
    let mut c = Collector::new();
    let t = c.register_thread();
    let s = c.shield(t);
    let cow = CowShield::new_borrowed(&s);
    assert_eq!(cow.get().thread(), t);
    assert_eq!(c.thread_state(t).depth, 1);
    s.unpin(&mut c);
}

#[test]
fn cow_shield_into_owned_clones_only_when_borrowed() {
    let mut c = Collector::new();
    let t = c.register_thread();
    let s = c.shield(t);
    assert_eq!(c.thread_state(t).depth, 1);

    let cow = CowShield::new_borrowed(&s);
    let owned = cow.into_owned(&mut c);
    // Taking ownership of a borrowed shield pins a second time.
    assert_eq!(c.thread_state(t).depth, 2);
    owned.unpin(&mut c);
    assert_eq!(c.thread_state(t).depth, 1);

    let cow = CowShield::new_owned(s);
    assert_eq!(cow.get().thread(), t);
    let owned = cow.into_owned(&mut c);
    // An owned shield is handed through without another pin.
    assert_eq!(c.thread_state(t).depth, 1);
    owned.unpin(&mut c);
    assert_eq!(c.thread_state(t).depth, 0);
}

#[test]
fn generation_observed_never_decreases() {
    let mut c = Collector::new();
    let t = c.register_thread();
    let mut last = c.load_epoch_relaxed().generation;
    for round in 0..20u64 {
        let s = c.shield(t);
        s.retire(&mut c, Deferred::new(round));
        let g = c.load_epoch_relaxed().generation;
        assert!(g >= last);
        last = g;
        let _ = c.collect();
        let g = c.load_epoch_relaxed().generation;
        assert!(g >= last);
        last = g;
        s.unpin(&mut c);
        let _ = c.collect();
        let g = c.load_epoch_relaxed().generation;
        assert!(g >= last);
        last = g;
    }
}
