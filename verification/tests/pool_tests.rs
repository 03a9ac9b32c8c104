use workpool::pool::ClaimAttempt;
use workpool::pool::ServeOutcome;
use workpool::pool::ThreadPool;
use workpool::pool::serve_attempt;
use workpool::pool::serve_claimed;

#[test]
fn pool_has_exactly_the_requested_workers() {
    let pool = ThreadPool::new(4);
    assert_eq!(pool.worker_count(), 4);
    let single = ThreadPool::new(1);
    assert_eq!(single.worker_count(), 1);
}

#[test]
fn worker_handles_carry_their_slot_identity() {
    let pool = ThreadPool::new(3);
    assert_eq!(pool.worker_handle(0).id(), 0);
    assert_eq!(pool.worker_handle(1).id(), 1);
    assert_eq!(pool.worker_handle(2).id(), 2);
}

#[test]
fn zero_workers_is_refused_before_anything_is_built() {
    assert!(ThreadPool::try_new(0).is_none());
}

#[test]
fn positive_size_is_accepted_by_try_new() {
    let pool = ThreadPool::try_new(5).expect("a positive size must be accepted");
    assert_eq!(pool.worker_count(), 5);
}

#[test]
fn execute_delivers_while_the_pool_lives() {
    let pool = ThreadPool::new(2);
    assert!(pool.execute(|| {}));
}

#[test]
fn every_unit_runs_exactly_once_even_with_more_work_than_workers() {
    let pool = ThreadPool::new(3);
    let (tx, rx) = std::sync::mpsc::channel();
    for i in 0..10u64 {
        let tx_i = tx.clone();
        assert!(pool.execute(move || {
            tx_i.send(i).unwrap();
        }));
    }
    drop(tx);
    // Drive the three workers by hand, round robin, until the queue is dry.
    let workers = [
        pool.worker_handle(0),
        pool.worker_handle(1),
        pool.worker_handle(2),
    ];
    let mut slot = 0;
    loop {
        match workers[slot].serve_available() {
            ServeOutcome::Ran => {}
            ServeOutcome::Empty => break,
            ServeOutcome::Closed => panic!("the channel must stay open while the pool lives"),
        }
        slot = (slot + 1) % workers.len();
    }
    let mut seen: Vec<u64> = rx.try_iter().collect();
    seen.sort();
    assert_eq!(seen, (0..10u64).collect::<Vec<u64>>());
}

#[test]
fn back_to_back_submissions_are_served_in_order() {
    let pool = ThreadPool::new(1);
    let (tx, rx) = std::sync::mpsc::channel();
    for i in 0..5u64 {
        let tx_i = tx.clone();
        assert!(pool.execute(move || {
            tx_i.send(i).unwrap();
        }));
    }
    drop(tx);
    let worker = pool.worker_handle(0);
    while worker.serve_available() == ServeOutcome::Ran {}
    let seen: Vec<u64> = rx.try_iter().collect();
    assert_eq!(seen, vec![0, 1, 2, 3, 4]);
}

#[test]
fn a_blocking_round_reports_an_empty_claim_as_closure() {
    assert!(!serve_claimed(None));
}

#[test]
fn a_serve_round_mirrors_its_claim() {
    assert_eq!(serve_attempt(ClaimAttempt::Empty), ServeOutcome::Empty);
    assert_eq!(serve_attempt(ClaimAttempt::Closed), ServeOutcome::Closed);
}

#[test]
fn an_idle_pool_reports_an_empty_queue() {
    let pool = ThreadPool::new(2);
    assert_eq!(pool.worker_handle(1).serve_available(), ServeOutcome::Empty);
}

#[test]
fn a_dropped_pool_closes_the_queue_for_its_workers() {
    let pool = ThreadPool::new(2);
    let worker = pool.worker_handle(0);
    let other = pool.worker_handle(1);
    drop(pool);
    assert_eq!(worker.serve_available(), ServeOutcome::Closed);
    // The blocking round sees the same closure instead of waiting forever.
    assert!(!other.serve_blocking());
}

#[test]
fn queued_work_is_still_served_after_the_pool_is_gone() {
    let pool = ThreadPool::new(1);
    let (tx, rx) = std::sync::mpsc::channel();
    let tx_a = tx.clone();
    assert!(pool.execute(move || {
        tx_a.send(7u64).unwrap();
    }));
    let worker = pool.worker_handle(0);
    drop(pool);
    drop(tx);
    assert!(worker.serve_blocking());
    assert_eq!(rx.try_iter().collect::<Vec<u64>>(), vec![7]);
    assert_eq!(worker.serve_available(), ServeOutcome::Closed);
}
