//! The decisions of one decode pass: what each step of the record cursor
//! does to the counters, and what the caller has to do with the record.

use vstd::prelude::*;
use crate::stats::Counts;
use crate::stats::RecordKind;
use crate::stats::TracepointStats;
use crate::stats::classify;
use crate::stats::kind_of;
use crate::stats::tally;
use crate::stats::lemma_tally_balanced;

verus! {

/// How many non-sample records are reported in detail.
pub const NON_SAMPLE_REPORT_LIMIT: u64 = 3;

/// How many sample records are reported in detail.
pub const SAMPLE_REPORT_LIMIT: u64 = 5;

/// How many fields of a reported sample are decoded.
pub const FIELD_REPORT_LIMIT: usize = 3;

/// What one advance of the record cursor yields.
#[derive(Clone, Copy, Debug, PartialEq, Eq, Structural)]
pub enum CursorEvent {
    /// A record is available, with the type tag and byte size of its header.
    Record { type_tag: u32, size: u16 },
    /// The stream is exhausted.
    EndOfStream,
    /// The framing of the next record is corrupt.
    StreamError,
}

/// Where a pass stands.
#[derive(Clone, Copy, Debug, PartialEq, Eq, Structural)]
pub enum PassPhase {
    /// Records are still being read.
    Reading,
    /// The stream ended normally.
    Finished,
    /// The stream was corrupt; the counters hold what was read before.
    Failed,
}

/// What the caller does after a step.
#[derive(Clone, Copy, Debug, PartialEq, Eq, Structural)]
pub enum RecordAction {
    /// Report this non-sample record.
    ReportNonSample { type_tag: u32, size: u16 },
    /// A non-sample record beyond the report limit: nothing to do.
    SkipNonSample,
    /// Resolve this sample, the `ordinal`-th of the pass counted from 1;
    /// report it and decode its fields only if `report` is set.
    ResolveSample { ordinal: u64, report: bool },
    /// The stream has ended; the counters are final.
    Finish,
    /// The stream is corrupt; stop, the counters hold the partial result.
    Abort,
}

/// The state of a pass as mathematical values.
pub struct PassState {
    pub phase: PassPhase,
    pub counts: Counts,
}

impl PassState {
    /// A pass before its first step.
    pub open spec fn start() -> PassState {
        PassState { phase: PassPhase::Reading, counts: Counts::zero() }
    }

    /// The state after one cursor event. Only a record met while reading
    /// changes the counters; a pass that has ended stays as it is.
    pub open spec fn next(self, event: CursorEvent) -> PassState {
        match self.phase {
            PassPhase::Reading => match event {
                CursorEvent::Record { type_tag, size } => PassState {
                    phase: PassPhase::Reading,
                    counts: self.counts.with_record(kind_of(type_tag)),
                },
                CursorEvent::EndOfStream => PassState {
                    phase: PassPhase::Finished,
                    counts: self.counts,
                },
                CursorEvent::StreamError => PassState {
                    phase: PassPhase::Failed,
                    counts: self.counts,
                },
            },
            PassPhase::Finished => self,
            PassPhase::Failed => self,
        }
    }

    /// What the caller is told to do for an event met in this state.
    pub open spec fn action(self, event: CursorEvent) -> RecordAction {
        match self.phase {
            PassPhase::Reading => match event {
                CursorEvent::Record { type_tag, size } => match kind_of(type_tag) {
                    RecordKind::Sample => RecordAction::ResolveSample {
                        ordinal: (self.counts.samples + 1) as u64,
                        report: self.counts.samples + 1 <= SAMPLE_REPORT_LIMIT,
                    },
                    RecordKind::NonSample => if self.counts.non_samples + 1
                        <= NON_SAMPLE_REPORT_LIMIT {
                        RecordAction::ReportNonSample { type_tag, size }
                    } else {
                        RecordAction::SkipNonSample
                    },
                },
                CursorEvent::EndOfStream => RecordAction::Finish,
                CursorEvent::StreamError => RecordAction::Abort,
            },
            PassPhase::Finished => RecordAction::Finish,
            PassPhase::Failed => RecordAction::Abort,
        }
    }

    /// The event can be taken without a counter leaving its range.
    pub open spec fn has_room(self, event: CursorEvent) -> bool {
        (self.phase == PassPhase::Reading && event is Record) ==> self.counts.total < u64::MAX
    }
}

/// The state of a pass after these cursor events, in this order.
pub open spec fn run(events: Seq<CursorEvent>) -> PassState
    decreases events.len(),
{
    if events.len() == 0 {
        PassState::start()
    } else {
        run(events.drop_last()).next(events.last())
    }
}

/// What the caller is told to do at each of these cursor events: the
/// action for an event is decided in the state that the events before it
/// have led to.
pub open spec fn actions_of(events: Seq<CursorEvent>) -> Seq<RecordAction> {
    Seq::new(events.len(), |i: int| run(events.take(i)).action(events[i]))
}

/// The action asks for a sample to be reported.
pub open spec fn reports_sample(action: RecordAction) -> bool {
    action matches RecordAction::ResolveSample { ordinal, report } && report
}

/// The action asks for a non-sample record to be reported.
pub open spec fn reports_non_sample(action: RecordAction) -> bool {
    action is ReportNonSample
}

/// How many of these cursor events lead to the report of a sample.
pub open spec fn sample_reports(events: Seq<CursorEvent>) -> nat
    decreases events.len(),
{
    if events.len() == 0 {
        0
    } else if reports_sample(run(events.drop_last()).action(events.last())) {
        sample_reports(events.drop_last()) + 1
    } else {
        sample_reports(events.drop_last())
    }
}

/// How many of these cursor events lead to the report of a non-sample.
pub open spec fn non_sample_reports(events: Seq<CursorEvent>) -> nat
    decreases events.len(),
{
    if events.len() == 0 {
        0
    } else if reports_non_sample(run(events.drop_last()).action(events.last())) {
        non_sample_reports(events.drop_last()) + 1
    } else {
        non_sample_reports(events.drop_last())
    }
}

/// The cursor events of a stream that yields records with these type tags
/// and sizes and nothing else.
pub open spec fn records_of(tags: Seq<u32>, sizes: Seq<u16>) -> Seq<CursorEvent>
    recommends
        tags.len() == sizes.len(),
{
    Seq::new(tags.len(), |i: int| CursorEvent::Record { type_tag: tags[i], size: sizes[i] })
}

/// One decode pass: the counters and the phase, driven one cursor event at
/// a time by whoever owns the cursor.
pub struct DecodePass {
    phase: PassPhase,
    stats: TracepointStats,
}

impl View for DecodePass {
    type V = PassState;

    closed spec fn view(&self) -> PassState {
        PassState { phase: self.phase, counts: self.stats@ }
    }
}

impl DecodePass {
    #[verifier::type_invariant]
    spec fn counted_once(self) -> bool {
        self.stats.balanced()
    }

    /// A pass that has read nothing yet.
    pub fn new() -> (pass: DecodePass)
        ensures
            pass@ == PassState::start(),
    {
        DecodePass { phase: PassPhase::Reading, stats: TracepointStats::default() }
    }

    /// Where the pass stands.
    pub fn phase(&self) -> (phase: PassPhase)
        ensures
            phase == self@.phase,
    {
        self.phase
    }

    /// A copy of the counters as they stand, also after a stream error.
    pub fn stats(&self) -> (stats: TracepointStats)
        ensures
            stats@ == self@.counts,
            stats.balanced(),
    {
        proof {
            use_type_invariant(self);
        }
        self.stats.snapshot()
    }

    /// Whether the next record can still be counted; false only after
    /// `u64::MAX` records.
    pub fn has_room(&self) -> (room: bool)
        ensures
            room == (self@.counts.total < u64::MAX),
    {
        self.stats.total_events < u64::MAX
    }

    /// Takes one cursor event: counts a record, or ends the pass, and says
    /// what the caller has to do. Events after the end change nothing.
    pub fn step(&mut self, event: CursorEvent) -> (action: RecordAction)
        requires
            old(self)@.has_room(event),
        ensures
            final(self)@ == old(self)@.next(event),
            action == old(self)@.action(event),
    {
        proof {
            use_type_invariant(&*self);
        }
        match self.phase {
            PassPhase::Reading => match event {
                CursorEvent::Record { type_tag, size } => {
                    let kind = classify(type_tag);
                    let mut stats = self.stats.snapshot();
                    stats.record(kind);
                    self.stats = stats;
                    match kind {
                        RecordKind::Sample => RecordAction::ResolveSample {
                            ordinal: stats.sample_events,
                            report: stats.sample_events <= SAMPLE_REPORT_LIMIT,
                        },
                        RecordKind::NonSample => if stats.non_sample_events
                            <= NON_SAMPLE_REPORT_LIMIT {
                            RecordAction::ReportNonSample { type_tag, size }
                        } else {
                            RecordAction::SkipNonSample
                        },
                    }
                },
                CursorEvent::EndOfStream => {
                    self.phase = PassPhase::Finished;
                    RecordAction::Finish
                },
                CursorEvent::StreamError => {
                    self.phase = PassPhase::Failed;
                    RecordAction::Abort
                },
            },
            PassPhase::Finished => RecordAction::Finish,
            PassPhase::Failed => RecordAction::Abort,
        }
    }
}

/// What a whole pass leaves behind.
#[derive(Clone, Debug)]
pub struct PassSummary {
    /// The counters at the end of the pass.
    pub stats: TracepointStats,
    /// The phase in which the pass ended.
    pub phase: PassPhase,
    /// What the caller was told to do, event by event.
    pub actions: Vec<RecordAction>,
}

/// Runs a pass over cursor events that are already at hand and returns the
/// counters, the phase it ends in and the action for each event. A stream
/// without records is no error: it ends with all counters at zero.
pub fn run_pass(events: &[CursorEvent]) -> (summary: PassSummary)
    ensures
        summary.stats@ == run(events@).counts,
        summary.phase == run(events@).phase,
        summary.actions@ == actions_of(events@),
        summary.stats.balanced(),
{
    let mut pass = DecodePass::new();
    let mut actions: Vec<RecordAction> = Vec::new();
    let mut i: usize = 0;
    assert(events@.take(0) =~= Seq::<CursorEvent>::empty());
    while i < events.len()
        invariant
            i <= events.len(),
            pass@ == run(events@.take(i as int)),
            pass@.counts.total <= i,
            actions@.len() == i,
            forall|j: int| 0 <= j < i ==> #[trigger] actions@[j] == actions_of(events@)[j],
        decreases events.len() - i,
    {
        let event = events[i];
        assert(events@.take(i + 1).drop_last() =~= events@.take(i as int));
        assert(events@.take(i + 1).last() == event);
        let action = pass.step(event);
        actions.push(action);
        i = i + 1;
    }
    assert(events@.take(i as int) =~= events@);
    assert(actions@ =~= actions_of(events@));
    PassSummary { stats: pass.stats(), phase: pass.phase(), actions }
}

/// After any sequence of cursor events the total equals the samples plus
/// the non-samples, whether the pass is still reading, has finished or has
/// failed.
pub proof fn lemma_run_balanced(events: Seq<CursorEvent>)
    ensures
        run(events).counts.balanced(),
        run(events).counts.total == run(events).counts.samples + run(events).counts.non_samples,
        run(events).counts.total <= events.len(),
    decreases events.len(),
{
    if events.len() > 0 {
        lemma_run_balanced(events.drop_last());
    }
}

/// Reports stay bounded however long the stream is: of the samples the
/// first `SAMPLE_REPORT_LIMIT` are reported, of the non-samples the first
/// `NON_SAMPLE_REPORT_LIMIT`, and none after them.
pub proof fn lemma_reports_are_bounded(events: Seq<CursorEvent>)
    ensures
        sample_reports(events) == if run(events).counts.samples <= SAMPLE_REPORT_LIMIT {
            run(events).counts.samples
        } else {
            SAMPLE_REPORT_LIMIT as nat
        },
        non_sample_reports(events) == if run(events).counts.non_samples
            <= NON_SAMPLE_REPORT_LIMIT {
            run(events).counts.non_samples
        } else {
            NON_SAMPLE_REPORT_LIMIT as nat
        },
        sample_reports(events) <= SAMPLE_REPORT_LIMIT,
        non_sample_reports(events) <= NON_SAMPLE_REPORT_LIMIT,
    decreases events.len(),
{
    if events.len() > 0 {
        lemma_reports_are_bounded(events.drop_last());
    }
}

/// A stream that yields only records leaves the pass reading, with the
/// counters that the records' type tags give; their sizes play no part.
pub proof fn lemma_run_records(tags: Seq<u32>, sizes: Seq<u16>)
    requires
        tags.len() == sizes.len(),
    ensures
        run(records_of(tags, sizes)).phase == PassPhase::Reading,
        run(records_of(tags, sizes)).counts == tally(tags),
        run(records_of(tags, sizes)).counts.total == tags.len(),
    decreases tags.len(),
{
    let events = records_of(tags, sizes);
    if tags.len() > 0 {
        lemma_run_records(tags.drop_last(), sizes.drop_last());
        assert(events.drop_last() =~= records_of(tags.drop_last(), sizes.drop_last()));
        assert(events.last() == CursorEvent::Record {
            type_tag: tags.last(),
            size: sizes.last(),
        });
    }
    lemma_tally_balanced(tags);
}

/// A stream that yields no record leaves all counters at zero, and unless
/// its framing is corrupt the pass does not fail: an empty stream is no
/// error.
pub proof fn lemma_stream_without_records(events: Seq<CursorEvent>)
    requires
        forall|i: int| 0 <= i < events.len() ==> !(#[trigger] events[i] is Record),
    ensures
        run(events).counts == Counts::zero(),
        (forall|i: int| 0 <= i < events.len() ==> !(#[trigger] events[i] is StreamError))
            ==> run(events).phase != PassPhase::Failed,
        (forall|i: int| 0 <= i < events.len() ==> #[trigger] events[i] is EndOfStream)
            && events.len() > 0 ==> run(events).phase == PassPhase::Finished,
    decreases events.len(),
{
    if events.len() > 0 {
        let front = events.drop_last();
        assert(forall|i: int| 0 <= i < front.len() ==> front[i] == events[i]);
        lemma_stream_without_records(front);
        assert(events.last() == events[events.len() - 1]);
    }
}

/// The end of the stream and a stream error change the phase only: the
/// counters read so far stay as they are, so a failed pass still holds its
/// partial result.
pub proof fn lemma_end_keeps_counts(state: PassState, event: CursorEvent)
    requires
        !(event is Record),
    ensures
        state.next(event).counts == state.counts,
        state.phase == PassPhase::Reading && event is EndOfStream ==> state.next(event).phase
            == PassPhase::Finished,
        state.phase == PassPhase::Reading && event is StreamError ==> state.next(event).phase
            == PassPhase::Failed,
{
}

/// Once a pass has ended, further cursor events change neither the phase
/// nor the counters.
pub proof fn lemma_ended_pass_is_stable(state: PassState, event: CursorEvent)
    requires
        state.phase != PassPhase::Reading,
    ensures
        state.next(event) == state,
{
}

/// A sample record is counted when it is classified, before anyone tries
/// to resolve it: the step adds one to the total and to the samples and
/// leaves the pass reading, so a sample that later turns out to match no
/// descriptor neither miscounts nor stops the records behind it.
pub proof fn lemma_sample_counted_before_resolution(state: PassState, size: u16)
    requires
        state.phase == PassPhase::Reading,
    ensures
        state.next(CursorEvent::Record { type_tag: crate::stats::SAMPLE_TYPE_TAG, size }).phase
            == PassPhase::Reading,
        state.next(CursorEvent::Record { type_tag: crate::stats::SAMPLE_TYPE_TAG, size }).counts
            == state.counts.with_record(RecordKind::Sample),
        state.action(CursorEvent::Record { type_tag: crate::stats::SAMPLE_TYPE_TAG, size })
            is ResolveSample,
{
}

} // verus!
