use lool::threadpool::PoolStatus;

#[test]
fn pool_counters_follow_the_jobs() {
    let mut status = PoolStatus::create(4);
    assert_eq!(status.pool_size(), 4);
    assert_eq!(status.queued_jobs(), 0);
    assert_eq!(status.active_jobs(), 0);
    assert!(!status.has_work());

    status.enqueue_job();
    status.enqueue_job();
    status.enqueue_job();
    assert_eq!(status.queued_jobs(), 3);
    assert!(status.has_work());

    status.take_job();
    assert_eq!(status.queued_jobs(), 2);
    assert_eq!(status.active_jobs(), 1);
    assert!(status.has_work());

    status.take_job();
    status.finish_job();
    assert_eq!(status.queued_jobs(), 1);
    assert_eq!(status.active_jobs(), 1);

    // drain everything: with all submitted jobs finished, no work remains
    status.take_job();
    status.finish_job();
    status.finish_job();
    assert_eq!(status.queued_jobs(), 0);
    assert_eq!(status.active_jobs(), 0);
    assert!(!status.has_work());
}
