//! What the thread of a stream does with the stream's intervals.
//!
//! The program around this module runs the intervals and carries the reports.
//! It tells a [`StreamWorker`] how each interval ended and does what the worker
//! answers.

use vstd::prelude::*;

verus! {

/// How an interval of a stream ended.
#[derive(Debug, PartialEq, Eq, Structural, Clone, Copy)]
pub enum IntervalOutcome {
    /// The stream has measured something.
    Measured,
    /// The stream has failed.
    Failed,
    /// The stream is done: there was no interval left.
    Finished,
}

/// What to do upon the end of an interval.
#[derive(Debug, PartialEq, Eq, Structural, Clone, Copy)]
pub enum WorkerStep {
    /// Forward what was measured, and run the next interval.
    Forward,
    /// Report that the stream has failed, and stop.
    ReportFailed,
    /// Report that the stream has ended well, and stop.
    ReportDone,
}

/// Something that a worker takes note of.
pub enum WorkerEvent {
    /// An interval has ended.
    Interval(IntervalOutcome),
    /// What was measured could not be forwarded.
    Undelivered,
}

/// What is to be done upon the end of an interval.
pub open spec fn worker_step(outcome: IntervalOutcome) -> WorkerStep {
    match outcome {
        IntervalOutcome::Measured => WorkerStep::Forward,
        IntervalOutcome::Failed => WorkerStep::ReportFailed,
        IntervalOutcome::Finished => WorkerStep::ReportDone,
    }
}

/// Whether a step says how the stream ended.
pub open spec fn is_final(step: WorkerStep) -> bool {
    step != WorkerStep::Forward
}

/// Whether a worker that goes on stops upon an event: it goes on as long as
/// there is something to forward and someone to forward it to.
pub open spec fn stops_upon(event: WorkerEvent) -> bool {
    match event {
        WorkerEvent::Interval(outcome) => is_final(worker_step(outcome)),
        WorkerEvent::Undelivered => true,
    }
}

/// Decides what becomes of the intervals of one stream.
#[derive(Debug)]
pub struct StreamWorker {
    stopped: bool,
}

impl StreamWorker {
    /// Whether the worker has stopped.
    pub closed spec fn stopped(&self) -> bool {
        self.stopped
    }

    /// A worker that goes on.
    pub fn new() -> (worker: StreamWorker)
        ensures
            !worker.stopped(),
    {
        StreamWorker { stopped: false }
    }

    /// Whether the worker has stopped.
    pub fn has_stopped(&self) -> (stopped: bool)
        ensures
            stopped == self.stopped(),
    {
        self.stopped
    }

    /// Takes note of how an interval ended.
    pub fn on_interval(&mut self, outcome: IntervalOutcome) -> (step: WorkerStep)
        requires
            !old(self).stopped(),
        ensures
            step == worker_step(outcome),
            final(self).stopped() == stops_upon(WorkerEvent::Interval(outcome)),
    {
        match outcome {
            IntervalOutcome::Measured => WorkerStep::Forward,
            IntervalOutcome::Failed => {
                self.stopped = true;
                WorkerStep::ReportFailed
            },
            IntervalOutcome::Finished => {
                self.stopped = true;
                WorkerStep::ReportDone
            },
        }
    }

    /// Takes note that what was measured could not be forwarded.
    pub fn on_undelivered(&mut self)
        requires
            !old(self).stopped(),
        ensures
            final(self).stopped() == stops_upon(WorkerEvent::Undelivered),
    {
        self.stopped = true;
    }
}

/// Whether a worker has stopped after a sequence of events.
pub open spec fn stopped_after(events: Seq<WorkerEvent>) -> bool
    decreases events.len(),
{
    events.len() > 0 && (stopped_after(events.drop_last()) || stops_upon(events.last()))
}

/// What a worker does upon a sequence of events, in order. Once it has stopped
/// it does nothing.
pub open spec fn worker_steps(events: Seq<WorkerEvent>) -> Seq<WorkerStep>
    decreases events.len(),
{
    if events.len() == 0 {
        seq![]
    } else {
        let before = worker_steps(events.drop_last());
        match events.last() {
            WorkerEvent::Interval(outcome) if !stopped_after(events.drop_last()) => before.push(
                worker_step(outcome),
            ),
            _ => before,
        }
    }
}

/// A stream's end is reported at most once, and nothing follows the report.
pub proof fn law_nothing_follows_final_report(events: Seq<WorkerEvent>, i: int)
    requires
        0 <= i < worker_steps(events).len(),
        is_final(worker_steps(events)[i]),
    ensures
        i == worker_steps(events).len() - 1,
        stopped_after(events),
    decreases events.len(),
{
    let before = worker_steps(events.drop_last());
    if i < before.len() {
        law_nothing_follows_final_report(events.drop_last(), i);
    }
}

/// A worker that has stopped has reported the stream's end, unless something
/// could not be forwarded.
pub proof fn law_stopped_worker_has_reported(events: Seq<WorkerEvent>)
    requires
        stopped_after(events),
        forall|i: int| 0 <= i < events.len() ==> #[trigger] events[i] != WorkerEvent::Undelivered,
    ensures
        worker_steps(events).len() > 0,
        is_final(worker_steps(events).last()),
    decreases events.len(),
{
    let front = events.drop_last();
    assert(events[events.len() - 1] == events.last());
    if stopped_after(front) {
        assert forall|i: int| 0 <= i < front.len() implies #[trigger] front[i]
            != WorkerEvent::Undelivered by {
            assert(front[i] == events[i]);
        }
        law_stopped_worker_has_reported(front);
    }
}

/// What was measured is forwarded, a failure is reported as one, and the end of
/// a stream as such. A worker goes on exactly as long as it forwards.
pub proof fn law_intervals_are_answered(outcome: IntervalOutcome)
    ensures
        worker_step(outcome) == WorkerStep::Forward <==> outcome == IntervalOutcome::Measured,
        worker_step(outcome) == WorkerStep::ReportFailed <==> outcome == IntervalOutcome::Failed,
        worker_step(outcome) == WorkerStep::ReportDone <==> outcome == IntervalOutcome::Finished,
        stops_upon(WorkerEvent::Interval(outcome)) <==> outcome != IntervalOutcome::Measured,
        stops_upon(WorkerEvent::Undelivered),
{
}

/// A worker answers an interval by how it ended and stops with the stream, or
/// when something could not be forwarded.
pub proof fn law_worker_answers_and_stops(
    fresh: StreamWorker,
    worker: &mut StreamWorker,
    outcome: IntervalOutcome,
    step: WorkerStep,
    undelivered: &mut StreamWorker,
    told: bool,
)
    requires
        call_ensures(StreamWorker::new, (), fresh),
        call_ensures(StreamWorker::has_stopped, (&fresh,), told),
        call_ensures(StreamWorker::on_interval, (worker, outcome), step),
        call_ensures(StreamWorker::on_undelivered, (undelivered,), ()),
    ensures
        !told,
        step == WorkerStep::Forward <==> outcome == IntervalOutcome::Measured,
        step == WorkerStep::ReportFailed <==> outcome == IntervalOutcome::Failed,
        step == WorkerStep::ReportDone <==> outcome == IntervalOutcome::Finished,
        final(worker).stopped() <==> outcome != IntervalOutcome::Measured,
        final(undelivered).stopped(),
{
}

} // verus!
