//! How far the streams of a test have come.

use std::collections::HashSet;

use vstd::prelude::*;

verus! {

broadcast use vstd::std_specs::hash::group_hash_axioms;

/// The transport that a test exercises.
#[derive(Debug, PartialEq, Eq, Structural, Clone, Copy)]
pub enum TestFamily {
    Tcp,
    Udp,
}

/// How far the streams of a test have come, by stream index.
#[verifier::ext_equal]
pub struct Progress {
    pub family: TestFamily,
    /// The streams that go on at the client.
    pub pending: Set<u8>,
    /// The streams that go on at the server.
    pub pending_server: Set<u8>,
    /// The streams that failed.
    pub failed: Set<u8>,
}

impl Progress {
    /// A test without streams.
    pub open spec fn empty(family: TestFamily) -> Progress {
        Progress { family, pending: set![], pending_server: set![], failed: set![] }
    }

    /// A test of the streams below `count`, none of which has ended.
    pub open spec fn of_streams(family: TestFamily, count: int) -> Progress {
        let streams = Set::new(|idx: u8| idx < count);
        Progress { family, pending: streams, pending_server: streams, failed: set![] }
    }

    /// The progress once stream `idx` takes part as well.
    pub open spec fn prepared(self, idx: u8) -> Progress {
        Progress {
            pending: self.pending.insert(idx),
            pending_server: self.pending_server.insert(idx),
            ..self
        }
    }

    /// The progress once stream `idx` has ended at the client.
    pub open spec fn done(self, idx: u8, success: bool) -> Progress {
        Progress {
            pending: self.pending.remove(idx),
            failed: if success {
                self.failed
            } else {
                self.failed.insert(idx)
            },
            ..self
        }
    }

    /// The progress once stream `idx` has ended at the server.
    pub open spec fn done_server(self, idx: u8) -> Progress {
        Progress { pending_server: self.pending_server.remove(idx), ..self }
    }

    /// No stream goes on at the client.
    pub open spec fn client_is_done(self) -> bool {
        self.pending.is_empty()
    }

    /// No stream goes on at the server.
    pub open spec fn server_is_done(self) -> bool {
        self.pending_server.is_empty()
    }

    /// Every stream has ended at the client, and none failed.
    pub open spec fn is_success(self) -> bool {
        self.pending.is_empty() && self.failed.is_empty()
    }
}

/// Keeps how far the streams of a test have come.
#[derive(Debug)]
pub struct TestResults {
    family: TestFamily,
    pending: HashSet<u8>,
    pending_server: HashSet<u8>,
    failed: HashSet<u8>,
}

impl View for TestResults {
    type V = Progress;

    closed spec fn view(&self) -> Progress {
        Progress {
            family: self.family,
            pending: self.pending@,
            pending_server: self.pending_server@,
            failed: self.failed@,
        }
    }
}

impl TestResults {
    /// The streams can be counted.
    pub open spec fn wf(&self) -> bool {
        self@.pending.finite() && self@.pending_server.finite()
    }

    /// A test without streams.
    pub fn new(family: TestFamily) -> (results: Self)
        ensures
            results.wf(),
            results@ == Progress::empty(family),
    {
        TestResults {
            family,
            pending: HashSet::new(),
            pending_server: HashSet::new(),
            failed: HashSet::new(),
        }
    }

    /// The transport that the test exercises.
    pub fn family(&self) -> (family: TestFamily)
        ensures
            family == self@.family,
    {
        self.family
    }

    /// Lets stream `idx` take part.
    pub fn prepare_index(&mut self, idx: u8)
        requires
            old(self).wf(),
        ensures
            final(self).wf(),
            final(self)@ == old(self)@.prepared(idx),
    {
        self.pending.insert(idx);
        self.pending_server.insert(idx);
    }

    /// Notes that stream `idx` has ended at the client.
    pub fn mark_stream_done(&mut self, idx: u8, success: bool)
        requires
            old(self).wf(),
        ensures
            final(self).wf(),
            final(self)@ == old(self)@.done(idx, success),
    {
        self.pending.remove(&idx);
        if !success {
            self.failed.insert(idx);
        }
    }

    /// Notes that stream `idx` has ended at the server.
    pub fn mark_stream_done_server(&mut self, idx: u8)
        requires
            old(self).wf(),
        ensures
            final(self).wf(),
            final(self)@ == old(self)@.done_server(idx),
    {
        self.pending_server.remove(&idx);
    }

    /// How many streams go on at the client.
    pub fn count_in_progress_streams(&self) -> (count: usize)
        requires
            self.wf(),
        ensures
            count == self@.pending.len(),
            count == 0 <==> self@.client_is_done(),
    {
        proof {
            lemma_no_members(self@.pending);
        }
        self.pending.len()
    }

    /// How many streams go on at the server.
    pub fn count_in_progress_streams_server(&self) -> (count: usize)
        requires
            self.wf(),
        ensures
            count == self@.pending_server.len(),
            count == 0 <==> self@.server_is_done(),
    {
        proof {
            lemma_no_members(self@.pending_server);
        }
        self.pending_server.len()
    }

    /// Whether every stream has ended at the client and none failed.
    pub fn is_success(&self) -> (success: bool)
        ensures
            success == self@.is_success(),
    {
        self.pending.is_empty() && self.failed.is_empty()
    }
}

/// A finite set is empty exactly when it has no members.
proof fn lemma_no_members(members: Set<u8>)
    requires
        members.finite(),
    ensures
        members.len() == 0 <==> members.is_empty(),
{
    if members.len() == 0 {
        members.lemma_len0_is_empty();
    }
}

/// A failure is never forgotten: whatever else is noted of the streams, a test
/// in which one failed is no success.
pub proof fn law_failure_is_final(progress: Progress, idx: u8, other: u8, success: bool)
    requires
        progress.failed.contains(idx),
    ensures
        !progress.is_success(),
        progress.done(other, success).failed.contains(idx),
        progress.done_server(other).failed.contains(idx),
{
}

/// What is noted of a stream concerns that stream and no other.
pub proof fn law_notes_concern_their_stream(progress: Progress, idx: u8, other: u8, success: bool)
    ensures
        progress.prepared(idx).pending.contains(other) <==> progress.pending.contains(other)
            || other == idx,
        progress.prepared(idx).pending_server.contains(other)
            <==> progress.pending_server.contains(other) || other == idx,
        progress.prepared(idx).failed == progress.failed,
        progress.done(idx, success).pending.contains(other) <==> progress.pending.contains(other)
            && other != idx,
        progress.done(idx, success).pending_server == progress.pending_server,
        progress.done(idx, success).failed.contains(other) <==> progress.failed.contains(other) || (
        !success && other == idx),
        progress.done_server(idx).pending_server.contains(other)
            <==> progress.pending_server.contains(other) && other != idx,
        progress.done_server(idx).pending == progress.pending,
        progress.done_server(idx).failed == progress.failed,
        progress.prepared(idx).family == progress.family,
        progress.done(idx, success).family == progress.family,
        progress.done_server(idx).family == progress.family,
{
}

/// A new test has no streams, and a test of so many streams has those below
/// that number, all of which go on at both sides; none has failed.
pub proof fn law_tests_begin_with_their_streams(family: TestFamily, count: int, idx: u8)
    ensures
        Progress::empty(family).family == family,
        !Progress::empty(family).pending.contains(idx),
        !Progress::empty(family).pending_server.contains(idx),
        !Progress::empty(family).failed.contains(idx),
        Progress::of_streams(family, count).family == family,
        Progress::of_streams(family, count).pending.contains(idx) <==> idx < count,
        Progress::of_streams(family, count).pending_server.contains(idx) <==> idx < count,
        !Progress::of_streams(family, count).failed.contains(idx),
{
}

/// A side is done exactly if no stream goes on there.
pub proof fn law_side_is_done_without_streams(progress: Progress)
    ensures
        progress.client_is_done() <==> forall|i: u8| !#[trigger] progress.pending.contains(i),
        progress.server_is_done() <==> forall|i: u8|
            !#[trigger] progress.pending_server.contains(i),
{
    assert(progress.pending.is_empty() <==> progress.pending =~= Set::empty());
    assert(progress.pending_server.is_empty() <==> progress.pending_server =~= Set::empty());
}

/// What is noted of a stream goes into the results, and what they tell is what
/// was noted.
pub proof fn law_results_keep_what_is_noted(
    results: &mut TestResults,
    idx: u8,
    success: bool,
    kept: TestResults,
    family: TestFamily,
    count: usize,
    count_server: usize,
    succeeded: bool,
)
    ensures
        call_ensures(TestResults::new, (family,), kept) ==> kept@ == Progress::empty(family),
        call_ensures(TestResults::prepare_index, (results, idx), ()) ==> final(results)@ == old(
            results)@.prepared(idx),
        call_ensures(TestResults::mark_stream_done, (results, idx, success), ()) ==> final(
            results)@ == old(results)@.done(idx, success),
        call_ensures(TestResults::mark_stream_done_server, (results, idx), ()) ==> final(results)@
            == old(results)@.done_server(idx),
        call_ensures(TestResults::family, (&kept,), family) ==> family == kept@.family,
        call_ensures(TestResults::count_in_progress_streams, (&kept,), count) ==> count
            == kept@.pending.len(),
        call_ensures(TestResults::count_in_progress_streams_server, (&kept,), count_server)
            ==> count_server == kept@.pending_server.len(),
        call_ensures(TestResults::is_success, (&kept,), succeeded) ==> (succeeded <==> forall|i: u8|
            !(#[trigger] kept@.pending.contains(i)) && !kept@.failed.contains(i)),
{
    assert(kept@.pending.is_empty() <==> kept@.pending =~= Set::empty());
    assert(kept@.failed.is_empty() <==> kept@.failed =~= Set::empty());
}

} // verus!
