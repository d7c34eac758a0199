//! Decoding the payload of a resolved sample under two schemas: the
//! metadata that a payload carries itself is preferred; the kernel-format
//! schema of the event's descriptor is the fallback.

use vstd::prelude::*;
use tracepoint_decode::PerfEventFormat;
use crate::format::DecodedField;
use crate::format::DecodedFieldView;
use crate::format::decode_format_fields;
use crate::format::format_header;
use crate::format::field_views;
use crate::format::format_fields;
use crate::format::format_layout;
use crate::format::user_data;
use crate::format::user_data_of;
use crate::metadata::CursorView;
use crate::metadata::EVENT_HEADER_SIZE;
use crate::metadata::MOVE_NEXT_LIMIT;
use crate::metadata::MetadataFields;
use crate::metadata::MetadataView;
use crate::metadata::SampleDecoder;
use crate::metadata::collected_labels;
use crate::metadata::eventheader_open;

verus! {

/// What is known of a sample once its event descriptor is resolved.
#[derive(Clone, Copy, Debug)]
pub struct SampleEventInfo<'a> {
    /// Name of the event, as the descriptor gives it.
    pub name: &'a str,
    /// The raw field payload of the record, in the byte order of the file.
    pub raw_data: &'a [u8],
    /// The file stores numbers with the most significant byte first.
    pub big_endian: bool,
    /// The kernel-format schema of the event, where the descriptor has one.
    pub format: Option<&'a PerfEventFormat>,
}

/// The outcome of decoding one sample.
#[derive(Debug)]
pub enum DecodedSample {
    /// The payload described itself.
    Metadata(MetadataFields),
    /// The fields were read with the kernel-format schema.
    Format(Vec<DecodedField>),
    /// Neither schema applies: no fields, and no error.
    Undecodable,
}

/// The outcome of decoding one sample as mathematical values.
pub enum DecodedView {
    Metadata(MetadataView),
    Format(Seq<DecodedFieldView>),
    Undecodable,
}

impl View for DecodedSample {
    type V = DecodedView;

    open spec fn view(&self) -> DecodedView {
        match self {
            DecodedSample::Metadata(fields) => DecodedView::Metadata(fields@),
            DecodedSample::Format(fields) => DecodedView::Format(field_views(fields@)),
            DecodedSample::Undecodable => DecodedView::Undecodable,
        }
    }
}

/// The enumerator that is constructed over the payload of a sample, where
/// one is. The construction is tried only where the sample's format marks
/// the payload as self-describing; it is handed the format's tracepoint
/// name and the raw data that follows the common fields; and it fails
/// where the enumerator refuses the payload.
pub open spec fn enumerator_of(info: SampleEventInfo) -> Option<CursorView> {
    match info.format {
        Some(format) => {
            let layout = format_layout(*format);
            if layout.self_describing {
                eventheader_open(
                    layout.name,
                    user_data_of(info.raw_data@, layout.common_fields_size),
                    MOVE_NEXT_LIMIT,
                )
            } else {
                None
            }
        },
        None => None,
    }
}

/// What the self-describing stage yields for a sample: nothing where no
/// enumerator is constructed; else the summary of the event and the labels
/// collected from it, which are none where the event is not sound.
pub open spec fn metadata_stage(info: SampleEventInfo, limit: nat) -> Option<MetadataView> {
    match enumerator_of(info) {
        Some(view) => Some(
            MetadataView { summary: view.summary, labels: collected_labels(view, limit) },
        ),
        None => None,
    }
}

/// What decoding a sample yields: the result of the self-describing stage
/// where it succeeds; else the fields of the format-driven stage where the
/// sample has a format; else nothing.
pub open spec fn decoded(info: SampleEventInfo, limit: nat) -> DecodedView {
    match metadata_stage(info, limit) {
        Some(fields) => DecodedView::Metadata(fields),
        None => match info.format {
            Some(format) => DecodedView::Format(
                format_fields(format_layout(*format), info.raw_data@, info.big_endian, limit),
            ),
            None => DecodedView::Undecodable,
        },
    }
}

impl SampleDecoder {
    /// Decodes at most `limit` fields of a sample. The self-describing
    /// stage comes first: where an enumerator is constructed over the
    /// payload, its output is the outcome, whatever the format holds. The
    /// format-driven stage runs only after that construction has failed,
    /// and only where the sample has a format. A sample that neither stage
    /// can read yields no fields.
    pub fn decode_sample(
        &mut self,
        info: &SampleEventInfo<'_>,
        limit: usize,
    ) -> (sample: DecodedSample)
        ensures
            sample@ == decoded(*info, limit as nat),
            sample is Metadata <==> enumerator_of(*info) is Some,
            sample matches DecodedSample::Metadata(fields) ==> fields.summary@ == enumerator_of(
                *info,
            )->Some_0.summary && fields@.labels == collected_labels(
                enumerator_of(*info)->Some_0,
                limit as nat,
            ),
            sample is Format <==> info.format is Some && enumerator_of(*info) is None,
            sample is Undecodable <==> info.format is None,
            info.format is Some && user_data_of(
                info.raw_data@,
                format_layout(*info.format->Some_0).common_fields_size,
            ).len() < EVENT_HEADER_SIZE ==> sample is Format,
    {
        match info.format {
            Some(format) => {
                let header = format_header(format);
                let attempt = if header.self_describing {
                    let payload = user_data(info.raw_data, header.common_fields_size);
                    self.decode_metadata(header.name.as_str(), payload, limit)
                } else {
                    None
                };
                match attempt {
                    Some(fields) => DecodedSample::Metadata(fields),
                    None => DecodedSample::Format(
                        decode_format_fields(format, info.raw_data, info.big_endian, limit),
                    ),
                }
            },
            None => DecodedSample::Undecodable,
        }
    }
}

/// Whether the event descriptor of a sample was found.
#[derive(Clone, Copy, Debug)]
pub enum Resolution<'a> {
    /// A descriptor's identifier set holds the sample's identifier.
    Resolved(SampleEventInfo<'a>),
    /// No descriptor does: the sample is skipped, the pass goes on.
    Unresolved,
}

/// What is reported for one sample.
#[derive(Debug)]
pub enum SampleReport {
    /// The sample lies beyond the report limit: nothing is said of it.
    Silent,
    /// The sample could not be resolved: a notice, and nothing else.
    Unresolved,
    /// The sample was resolved and decoded.
    Decoded(DecodedSample),
}

/// What is reported for one sample, as mathematical values.
pub enum SampleReportView {
    Silent,
    Unresolved,
    Decoded(DecodedView),
}

impl View for SampleReport {
    type V = SampleReportView;

    open spec fn view(&self) -> SampleReportView {
        match self {
            SampleReport::Silent => SampleReportView::Silent,
            SampleReport::Unresolved => SampleReportView::Unresolved,
            SampleReport::Decoded(sample) => SampleReportView::Decoded(sample@),
        }
    }
}

/// What is reported for a sample: nothing unless it is to be reported; a
/// notice where it is unresolved; else its decoded fields.
pub open spec fn reported(report: bool, resolution: Resolution, limit: nat) -> SampleReportView {
    if !report {
        SampleReportView::Silent
    } else {
        match resolution {
            Resolution::Resolved(info) => SampleReportView::Decoded(decoded(info, limit)),
            Resolution::Unresolved => SampleReportView::Unresolved,
        }
    }
}

impl SampleDecoder {
    /// The sample path of a pass, after the record was counted: decides
    /// what is reported for the sample. An unresolved sample is never an
    /// error here: it yields a notice or nothing.
    pub fn report_sample(
        &mut self,
        report: bool,
        resolution: &Resolution<'_>,
        limit: usize,
    ) -> (outcome: SampleReport)
        ensures
            outcome@ == reported(report, *resolution, limit as nat),
    {
        if !report {
            SampleReport::Silent
        } else {
            match resolution {
                Resolution::Resolved(info) => SampleReport::Decoded(
                    self.decode_sample(info, limit),
                ),
                Resolution::Unresolved => SampleReport::Unresolved,
            }
        }
    }
}

/// The self-describing stage has precedence: where an enumerator is
/// constructed over the payload, the outcome is that stage's and holds
/// nothing of the format; the format-driven stage yields the outcome only
/// where the construction has failed.
pub proof fn lemma_metadata_stage_first(info: SampleEventInfo, limit: nat)
    ensures
        enumerator_of(info) is Some <==> decoded(info, limit) is Metadata,
        enumerator_of(info) is Some ==> decoded(info, limit) == DecodedView::Metadata(
            metadata_stage(info, limit)->Some_0,
        ),
        decoded(info, limit) is Format ==> enumerator_of(info) is None && info.format is Some,
        decoded(info, limit) is Undecodable <==> info.format is None,
{
}

/// The labels of the self-describing stage are leading items of the event
/// in document order: the first `limit` of them where the event is sound,
/// none where it is not.
pub proof fn lemma_labels_are_leading_items(info: SampleEventInfo, limit: nat)
    requires
        enumerator_of(info) is Some,
    ensures
        metadata_stage(info, limit) is Some,
        metadata_stage(info, limit)->Some_0.labels.len() <= limit,
        metadata_stage(info, limit)->Some_0.labels.len() <= enumerator_of(info)->Some_0.items.len(),
        forall|j: int|
            0 <= j < metadata_stage(info, limit)->Some_0.labels.len() ==> metadata_stage(
                info,
                limit,
            )->Some_0.labels[j] == enumerator_of(info)->Some_0.items[j],
{
}

/// A sample whose format does not mark the payload as self-describing is
/// decoded with the format, whatever its payload holds.
pub proof fn lemma_plain_format_uses_fields(info: SampleEventInfo, limit: nat)
    requires
        info.format is Some,
        !format_layout(*info.format->Some_0).self_describing,
    ensures
        decoded(info, limit) == DecodedView::Format(
            format_fields(
                format_layout(*info.format->Some_0),
                info.raw_data@,
                info.big_endian,
                limit,
            ),
        ),
{
}

} // verus!
