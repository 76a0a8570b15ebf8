use ebr::Collector;
use ebr::Deferred;

/// Runs a drained batch, marking each executed action in `done` and
/// asserting that none runs twice.
fn run_batch(batch: Vec<Deferred>, done: &mut [bool]) {
    for d in batch {
        let action = d.call() as usize;
        assert!(!done[action], "action {} executed twice", action);
        done[action] = true;
    }
}

#[test]
fn retired_action_does_not_run_while_retirer_stays_pinned() {
    let mut c = Collector::new();
    let a = c.register_thread();
    let shield = c.shield(a);
    shield.retire(&mut c, Deferred::new(0));
    let mut done = [false; 1];
    // Repeated collection requests from another caller must never hand the
    // action out while the retiring thread stays pinned.
    for _ in 0..5 {
        run_batch(c.collect(), &mut done);
        assert!(!done[0]);
    }
    shield.unpin(&mut c);
}

#[test]
fn retired_action_runs_exactly_once_after_unpin_and_two_advances() {
    let mut c = Collector::new();
    let a = c.register_thread();
    let shield = c.shield(a);
    shield.retire(&mut c, Deferred::new(0));
    shield.unpin(&mut c);
    let mut done = [false; 1];
    let mut executed = 0usize;
    // Enough collection cycles to force at least two successful advances.
    for _ in 0..5 {
        let before = c.load_epoch_relaxed().generation;
        let batch = c.collect();
        executed += batch.len();
        run_batch(batch, &mut done);
        let _ = before;
    }
    assert!(c.load_epoch_relaxed().generation >= 2);
    assert!(done[0]);
    assert_eq!(executed, 1);
}

#[test]
fn two_retirers_and_a_collector_drain_everything_exactly_once() {
    let mut c = Collector::new();
    let a = c.register_thread();
    let b = c.register_thread();
    let observer = c.register_thread();
    let mut done = vec![false; 2000];

    // Two threads retire 1000 actions each, in interleaved bursts, while a
    // third keeps pinning, unpinning and collecting.
    for burst in 0..100usize {
        let sa = c.shield(a);
        let sb = c.shield(b);
        for k in 0..10 {
            let i = burst * 10 + k;
            sa.retire(&mut c, Deferred::new(i as u64));
            sb.retire(&mut c, Deferred::new((1000 + i) as u64));
        }
        sa.unpin(&mut c);
        sb.unpin(&mut c);
        let so = c.shield(observer);
        run_batch(c.collect(), &mut done);
        so.unpin(&mut c);
        run_batch(c.collect(), &mut done);
    }

    // No thread pinned any more: a few further cycles drain the rest.
    for _ in 0..4 {
        run_batch(c.collect(), &mut done);
    }
    assert!(done.iter().all(|&x| x), "some retired action never executed");
}

#[test]
fn collection_is_not_stalled_by_a_thread_inside_repin_after() {
    let mut c = Collector::new();
    let a = c.register_thread();
    let mut shield = c.shield(a);
    // Let the thread's recorded generation fall behind, so that it would
    // block advancement if it kept its pin.
    let _ = c.collect();
    assert!(c.try_advance().is_err());
    let before = c.load_epoch_relaxed().generation;
    // The action stands for long, blocking work; while it runs the thread
    // is unpinned, so collection elsewhere proceeds.  Sequentially, the
    // re-pin samples the generation current after the action, and further
    // cycles advance freely.
    let r = shield.repin_after(&mut c, || 7u64);
    assert_eq!(r, 7);
    let _ = c.collect();
    let _ = c.collect();
    assert!(c.load_epoch_relaxed().generation > before);
    shield.unpin(&mut c);
}

#[test]
fn actions_land_in_the_slot_of_their_retirement_generation() {
    let mut c = Collector::new();
    let a = c.register_thread();
    let mut done = vec![false; 3];
    // Retire one action per generation across three generations; each must
    // come back exactly when its slot is drained, two advances later.
    for g in 0..3u64 {
        let s = c.shield(a);
        s.retire(&mut c, Deferred::new(g));
        s.unpin(&mut c);
        let batch = c.collect();
        if g == 0 {
            assert!(batch.is_empty());
        }
        run_batch(batch, &mut done);
    }
    // Generations 0, 1, 2 happened; the action of generation 0 came back
    // with the advance out of generation 1.
    assert!(done[0]);
    run_batch(c.collect(), &mut done);
    run_batch(c.collect(), &mut done);
    assert!(done.iter().all(|&x| x));
}
