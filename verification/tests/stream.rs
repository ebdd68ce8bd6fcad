use rperf::protocol::stream::{IntervalOutcome, StreamWorker, WorkerStep};

#[test]
fn measurements_are_forwarded_until_the_stream_is_done() {
    let mut worker = StreamWorker::new();
    assert_eq!(worker.on_interval(IntervalOutcome::Measured), WorkerStep::Forward);
    assert_eq!(worker.on_interval(IntervalOutcome::Measured), WorkerStep::Forward);
    assert!(!worker.has_stopped());
    assert_eq!(worker.on_interval(IntervalOutcome::Finished), WorkerStep::ReportDone);
    assert!(worker.has_stopped());
}

#[test]
fn a_failure_is_reported_and_stops_the_worker() {
    let mut worker = StreamWorker::new();
    assert_eq!(worker.on_interval(IntervalOutcome::Failed), WorkerStep::ReportFailed);
    assert!(worker.has_stopped());
}

#[test]
fn an_undelivered_measurement_stops_the_worker() {
    let mut worker = StreamWorker::new();
    assert_eq!(worker.on_interval(IntervalOutcome::Measured), WorkerStep::Forward);
    worker.on_undelivered();
    assert!(worker.has_stopped());
}
