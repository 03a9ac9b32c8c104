use workpool::sim::PoolSim;
use workpool::sim::SimPhase;

#[test]
fn a_fresh_machine_has_all_workers_waiting() {
    let sim = PoolSim::new_sim(3);
    assert_eq!(sim.workers.len(), 3);
    for w in 0..3 {
        assert_eq!(sim.workers[w], SimPhase::Waiting);
    }
    assert!(sim.queue.is_empty());
    assert_eq!(sim.submitted, 0);
    assert!(sim.completed.is_empty());
    assert!(sim.failed.is_empty());
}

#[test]
fn submissions_queue_up_in_order() {
    let mut sim = PoolSim::new_sim(2);
    sim.submit();
    sim.submit();
    sim.submit();
    assert_eq!(sim.queue, vec![0, 1, 2]);
    assert_eq!(sim.submitted, 3);
}

#[test]
fn a_claim_takes_the_oldest_unit() {
    let mut sim = PoolSim::new_sim(2);
    sim.submit();
    sim.submit();
    sim.claim(0);
    assert_eq!(sim.workers[0], SimPhase::Executing { task: 0 });
    assert_eq!(sim.queue, vec![1]);
}

#[test]
fn every_unit_settles_exactly_once() {
    let mut sim = PoolSim::new_sim(3);
    for _ in 0..3 {
        sim.submit();
    }
    sim.claim(0);
    sim.claim(1);
    sim.finish(0);
    sim.crash(1);
    sim.claim(2);
    assert!(sim.queue.is_empty());
    sim.finish(2);
    let mut settled = sim.completed.clone();
    settled.extend(sim.failed.iter());
    settled.sort();
    assert_eq!(settled, vec![0, 1, 2]);
    assert_eq!(sim.completed, vec![0, 2]);
    assert_eq!(sim.failed, vec![1]);
}

#[test]
fn a_busy_worker_does_not_stall_an_idle_one() {
    let mut sim = PoolSim::new_sim(2);
    sim.submit();
    sim.submit();
    sim.claim(0);
    // Worker 0 is mid-execution; worker 1 claims regardless.
    sim.claim(1);
    assert_eq!(sim.workers[0], SimPhase::Executing { task: 0 });
    assert_eq!(sim.workers[1], SimPhase::Executing { task: 1 });
}

#[test]
fn a_crashing_unit_stops_only_its_own_worker() {
    let mut sim = PoolSim::new_sim(2);
    sim.submit();
    sim.submit();
    sim.claim(0);
    sim.crash(0);
    assert_eq!(sim.workers[0], SimPhase::Stopped);
    assert_eq!(sim.failed, vec![0]);
    // The queue is untouched and the other worker still claims.
    assert_eq!(sim.queue, vec![1]);
    sim.claim(1);
    assert_eq!(sim.workers[1], SimPhase::Executing { task: 1 });
    sim.finish(1);
    assert_eq!(sim.completed, vec![1]);
}

#[test]
fn a_backlog_larger_than_the_pool_drains_completely() {
    let mut sim = PoolSim::new_sim(2);
    for _ in 0..7 {
        sim.submit();
    }
    while !sim.queue.is_empty() {
        for w in 0..2 {
            if sim.workers[w] == SimPhase::Waiting && !sim.queue.is_empty() {
                sim.claim(w);
            }
        }
        for w in 0..2 {
            if matches!(sim.workers[w], SimPhase::Executing { .. }) {
                sim.finish(w);
            }
        }
    }
    let mut done = sim.completed.clone();
    done.sort();
    assert_eq!(done, (0..7u64).collect::<Vec<u64>>());
}
