use nameless_server::lifecycle::{JobStatus, PoolLifecycle, PoolPhase, WorkerPhase};

#[test]
fn fresh_pool_has_all_workers_running() {
    let m = PoolLifecycle::new(3);
    assert_eq!(m.phase, PoolPhase::Active);
    assert_eq!(m.workers.len(), 3);
    for w in &m.workers {
        assert_eq!(*w, WorkerPhase::Running);
    }
    assert!(m.jobs.is_empty());
}

#[test]
fn jobs_are_claimed_in_submission_order() {
    let mut m = PoolLifecycle::new(1);
    assert_eq!(m.submit(), 0);
    assert_eq!(m.submit(), 1);
    assert_eq!(m.claim(0), 0);
    assert_eq!(m.finish(0), 0);
    assert_eq!(m.claim(0), 1);
    assert_eq!(m.finish(0), 1);
}

#[test]
fn a_claimed_job_names_its_worker() {
    let mut m = PoolLifecycle::new(2);
    m.submit();
    let id = m.claim(1);
    assert_eq!(id, 0);
    assert_eq!(m.jobs[0], JobStatus::Claimed { worker: 1 });
    assert_eq!(m.workers[1], WorkerPhase::Executing { job: 0 });
    assert_eq!(m.workers[0], WorkerPhase::Running);
}

#[test]
fn full_lifecycle_ends_stopped_with_every_job_done() {
    let mut m = PoolLifecycle::new(2);
    for _ in 0..3 {
        m.submit();
    }
    m.claim(0);
    m.claim(1);
    m.finish(0);
    m.claim(0);
    m.finish(1);
    m.finish(0);
    m.close();
    assert_eq!(m.phase, PoolPhase::ShuttingDown);
    m.retire(0);
    m.retire(1);
    m.stop();
    assert_eq!(m.phase, PoolPhase::Stopped);
    for j in &m.jobs {
        assert_eq!(*j, JobStatus::Done);
    }
    for w in &m.workers {
        assert_eq!(*w, WorkerPhase::Terminated);
    }
}

#[test]
fn draining_continues_during_shutdown() {
    let mut m = PoolLifecycle::new(1);
    m.submit();
    m.submit();
    m.claim(0);
    m.close();
    // The queued job is still handed out and finished after closing.
    m.finish(0);
    m.claim(0);
    m.finish(0);
    m.retire(0);
    m.stop();
    assert_eq!(m.phase, PoolPhase::Stopped);
    assert_eq!(m.jobs, vec![JobStatus::Done, JobStatus::Done]);
}
