//! Record classification and the counters of one decode pass.

use vstd::prelude::*;

verus! {

/// Type tag that the capture format gives to sample records.
pub const SAMPLE_TYPE_TAG: u32 = 9;

/// The two paths a record can take through the pipeline.
#[derive(Clone, Copy, Debug, PartialEq, Eq, Structural)]
pub enum RecordKind {
    Sample,
    NonSample,
}

/// What `classify` computes: only the sample tag selects the sample path.
pub open spec fn kind_of(type_tag: u32) -> RecordKind {
    if type_tag == SAMPLE_TYPE_TAG {
        RecordKind::Sample
    } else {
        RecordKind::NonSample
    }
}

/// Routes a record by its type tag alone. Tags outside the known
/// enumeration are non-samples, so unknown record types never stop a pass.
pub fn classify(type_tag: u32) -> (kind: RecordKind)
    ensures
        kind == kind_of(type_tag),
{
    if type_tag == SAMPLE_TYPE_TAG {
        RecordKind::Sample
    } else {
        RecordKind::NonSample
    }
}

/// The counters of a pass as unbounded numbers.
pub struct Counts {
    pub total: nat,
    pub samples: nat,
    pub non_samples: nat,
}

impl Counts {
    /// The counters before any record was seen.
    pub open spec fn zero() -> Counts {
        Counts { total: 0, samples: 0, non_samples: 0 }
    }

    /// The counters after one more record of the given kind.
    pub open spec fn with_record(self, kind: RecordKind) -> Counts {
        match kind {
            RecordKind::Sample => Counts {
                total: self.total + 1,
                samples: self.samples + 1,
                non_samples: self.non_samples,
            },
            RecordKind::NonSample => Counts {
                total: self.total + 1,
                samples: self.samples,
                non_samples: self.non_samples + 1,
            },
        }
    }

    /// Every counted record is either a sample or a non-sample.
    pub open spec fn balanced(self) -> bool {
        self.total == self.samples + self.non_samples
    }
}

/// The counters after the records with these type tags, in this order.
pub open spec fn tally(tags: Seq<u32>) -> Counts
    decreases tags.len(),
{
    if tags.len() == 0 {
        Counts::zero()
    } else {
        tally(tags.drop_last()).with_record(kind_of(tags.last()))
    }
}

/// Number of sample tags among `tags`.
pub open spec fn sample_count(tags: Seq<u32>) -> nat {
    tags.filter(|t: u32| t == SAMPLE_TYPE_TAG).len()
}

/// Statistics about the records of a capture file.
#[derive(Clone, Copy, Debug, PartialEq, Eq, Structural)]
pub struct TracepointStats {
    pub total_events: u64,
    pub sample_events: u64,
    pub non_sample_events: u64,
}

impl View for TracepointStats {
    type V = Counts;

    open spec fn view(&self) -> Counts {
        Counts {
            total: self.total_events as nat,
            samples: self.sample_events as nat,
            non_samples: self.non_sample_events as nat,
        }
    }
}

impl Default for TracepointStats {
    /// All three counters at zero.
    fn default() -> (stats: TracepointStats)
        ensures
            stats.total_events == 0,
            stats.sample_events == 0,
            stats.non_sample_events == 0,
            stats@ == Counts::zero(),
    {
        TracepointStats { total_events: 0, sample_events: 0, non_sample_events: 0 }
    }
}

impl TracepointStats {
    /// The counters are consistent: each record was counted once in the
    /// total and once in exactly one of the two categories.
    pub open spec fn balanced(&self) -> bool {
        self@.balanced()
    }

    /// There is room to count one more record of this kind.
    pub open spec fn has_room(&self, kind: RecordKind) -> bool {
        &&& self.total_events < u64::MAX
        &&& kind == RecordKind::Sample ==> self.sample_events < u64::MAX
        &&& kind == RecordKind::NonSample ==> self.non_sample_events < u64::MAX
    }

    /// Counts one record: the total and the counter of its kind grow by
    /// one, the other counter stays.
    pub fn record(&mut self, kind: RecordKind)
        requires
            old(self).has_room(kind),
        ensures
            final(self)@ == old(self)@.with_record(kind),
            old(self).balanced() ==> final(self).balanced(),
    {
        self.total_events = self.total_events + 1;
        match kind {
            RecordKind::Sample => {
                self.sample_events = self.sample_events + 1;
            },
            RecordKind::NonSample => {
                self.non_sample_events = self.non_sample_events + 1;
            },
        }
    }

    /// A copy of the counters as they stand; later records do not change it.
    pub fn snapshot(&self) -> (copy: TracepointStats)
        ensures
            copy == *self,
    {
        TracepointStats {
            total_events: self.total_events,
            sample_events: self.sample_events,
            non_sample_events: self.non_sample_events,
        }
    }
}

/// Counting never loses a record: after any sequence of records the total
/// equals the number of records, and it equals the samples plus the
/// non-samples.
pub proof fn lemma_tally_balanced(tags: Seq<u32>)
    ensures
        tally(tags).balanced(),
        tally(tags).total == tags.len(),
        tally(tags).total == tally(tags).samples + tally(tags).non_samples,
    decreases tags.len(),
{
    if tags.len() > 0 {
        lemma_tally_balanced(tags.drop_last());
    }
}

/// The sample counter is the number of records that carry the sample tag;
/// every other tag, known or not, counts as a non-sample.
pub proof fn lemma_tally_counts_sample_tags(tags: Seq<u32>)
    ensures
        tally(tags).samples == sample_count(tags),
        tally(tags).non_samples == tags.len() - sample_count(tags),
    decreases tags.len(),
{
    reveal(Seq::filter);
    if tags.len() > 0 {
        lemma_tally_counts_sample_tags(tags.drop_last());
    }
}

} // verus!
