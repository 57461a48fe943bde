use server::pool::{Claim, Closed, PoolCore, PoolError, WorkerState};

fn run_all(pool: &mut PoolCore<u32>, ran: &mut Vec<(usize, u32)>) {
    loop {
        let mut progressed = false;
        for w in 0..pool.size() {
            if pool.worker_state(w) == WorkerState::Idle {
                if let Claim::Run(job) = pool.claim(w) {
                    ran.push((w, job));
                    pool.finish(w);
                    progressed = true;
                }
            }
        }
        if !progressed {
            break;
        }
    }
}

#[test]
fn new_pool_has_idle_workers() {
    let pool = PoolCore::<u32>::new(4).unwrap();
    assert_eq!(pool.size(), 4);
    for w in 0..4 {
        assert_eq!(pool.worker_state(w), WorkerState::Idle);
    }
    assert!(!pool.is_closed());
    assert_eq!(pool.queued(), 0);
}

#[test]
fn new_pool_of_one_worker() {
    let mut pool = PoolCore::<u32>::new(1).unwrap();
    assert_eq!(pool.size(), 1);
    assert!(pool.submit(9).is_ok());
    assert!(matches!(pool.claim(0), Claim::Run(9)));
}

#[test]
fn zero_workers_is_refused() {
    assert!(matches!(PoolCore::<u32>::new(0), Err(PoolError::NoWorkers)));
}

#[test]
fn every_job_runs_exactly_once() {
    let mut pool = PoolCore::<u32>::new(3).unwrap();
    for job in 0..10 {
        assert!(pool.submit(job).is_ok());
    }
    let mut ran = Vec::new();
    run_all(&mut pool, &mut ran);
    let jobs: Vec<u32> = ran.iter().map(|r| r.1).collect();
    assert_eq!(jobs, (0..10).collect::<Vec<u32>>());
    assert_eq!(pool.queued(), 0);
}

#[test]
fn concurrency_stays_within_pool_size() {
    let mut pool = PoolCore::<u32>::new(3).unwrap();
    for job in 0..8 {
        assert!(pool.submit(job).is_ok());
    }
    let mut done = 0;
    while done < 8 {
        let mut running = Vec::new();
        for w in 0..pool.size() {
            if let Claim::Run(job) = pool.claim(w) {
                running.push((w, job));
            }
        }
        let busy = (0..pool.size()).filter(|w| pool.worker_state(*w) == WorkerState::Busy).count();
        assert!(busy <= 3);
        assert_eq!(busy, running.len());
        for (w, _) in running {
            pool.finish(w);
            done += 1;
        }
    }
    assert_eq!(done, 8);
    assert_eq!(pool.queued(), 0);
}

#[test]
fn long_job_does_not_block_others() {
    let mut pool = PoolCore::<u32>::new(4).unwrap();
    assert!(pool.submit(0).is_ok());
    assert!(matches!(pool.claim(0), Claim::Run(0)));
    let mut counter = 0;
    for job in 1..4 {
        assert!(pool.submit(job).is_ok());
    }
    for w in 1..4 {
        if let Claim::Run(_) = pool.claim(w) {
            counter += 1;
            pool.finish(w);
        }
    }
    assert_eq!(counter, 3);
    assert_eq!(pool.worker_state(0), WorkerState::Busy);
}

#[test]
fn aborted_job_leaves_worker_usable() {
    let mut pool = PoolCore::<u32>::new(2).unwrap();
    assert!(pool.submit(1).is_ok());
    assert!(matches!(pool.claim(1), Claim::Run(1)));
    // the job aborted; the worker reports that it is done with it
    pool.finish(1);
    assert_eq!(pool.worker_state(1), WorkerState::Idle);
    assert_eq!(pool.size(), 2);
    assert!(pool.submit(2).is_ok());
    assert!(matches!(pool.claim(1), Claim::Run(2)));
}

#[test]
fn submitted_value_reaches_cell_once() {
    let mut pool = PoolCore::<u32>::new(2).unwrap();
    let mut cell: Vec<u32> = Vec::new();
    assert!(pool.submit(42).is_ok());
    for w in 0..2 {
        if let Claim::Run(value) = pool.claim(w) {
            cell.push(value);
            pool.finish(w);
        }
    }
    assert_eq!(cell, vec![42]);
}

#[test]
fn idle_worker_waits_on_empty_queue() {
    let mut pool = PoolCore::<u32>::new(2).unwrap();
    assert!(matches!(pool.claim(0), Claim::Wait));
    assert_eq!(pool.worker_state(0), WorkerState::Idle);
}

#[test]
fn submit_after_close_is_refused() {
    let mut pool = PoolCore::<u32>::new(2).unwrap();
    pool.close();
    assert!(pool.is_closed());
    assert!(matches!(pool.submit(5), Err(Closed { job: 5 })));
    assert_eq!(pool.queued(), 0);
}

#[test]
fn close_drains_queue_then_stops_workers() {
    let mut pool = PoolCore::<u32>::new(2).unwrap();
    assert!(pool.submit(1).is_ok());
    assert!(pool.submit(2).is_ok());
    pool.close();
    assert!(matches!(pool.claim(0), Claim::Run(1)));
    assert!(matches!(pool.claim(1), Claim::Run(2)));
    assert!(!pool.all_stopped());
    pool.finish(0);
    pool.finish(1);
    assert!(matches!(pool.claim(0), Claim::Stop));
    assert!(!pool.all_stopped());
    assert!(matches!(pool.claim(1), Claim::Stop));
    assert!(pool.all_stopped());
}
