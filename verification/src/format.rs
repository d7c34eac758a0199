//! The kernel-format schema of an event: an ordered list of field
//! descriptors, the first of which are the common fields that every
//! tracepoint type shares. The schema itself is parsed and kept by
//! `tracepoint_decode`; this module reads it through a few trusted
//! functions and decides which fields are emitted.

use vstd::prelude::*;
use vstd::slice::slice_subrange;
use crate::definitions::u16_at;
use tracepoint_decode::PerfByteReader;
use tracepoint_decode::PerfEventDecodingStyle;
use tracepoint_decode::PerfEventFormat;
use tracepoint_decode::PerfFieldArray;

verus! {

/// `tracepoint_decode::PerfEventFormat`: a parsed tracefs "format" file.
/// Nothing inside it is visible here; `format_layout` names what it holds.
#[verifier::external_type_specification]
#[verifier::external_body]
pub struct ExPerfEventFormat(PerfEventFormat);

/// How the bytes of a field are found in the raw data of a record.
#[derive(Clone, Copy, Debug, PartialEq, Eq, Structural)]
pub enum FieldArray {
    /// A single value of `size` bytes at `offset`.
    Single,
    /// An array that fills `size` bytes at `offset`.
    Fixed,
    /// Everything from `offset` to the end of the raw data.
    RestOfEvent,
    /// Two bytes at `offset` hold a position relative to the field's end.
    RelLoc2,
    /// Two bytes at `offset` hold a position in the raw data.
    DataLoc2,
    /// Four bytes at `offset` hold a length and a relative position.
    RelLoc4,
    /// Four bytes at `offset` hold a length and a position.
    DataLoc4,
}

impl FieldArray {
    /// The field's bytes lie at its declared offset and have its declared
    /// size, whatever the record holds.
    pub open spec fn sized(self) -> bool {
        self == FieldArray::Single || self == FieldArray::Fixed
    }

    /// Tells whether the field's bytes lie at its declared offset with its
    /// declared size.
    pub fn is_sized(self) -> (sized: bool)
        ensures
            sized == self.sized(),
    {
        match self {
            FieldArray::Single => true,
            FieldArray::Fixed => true,
            _ => false,
        }
    }
}

/// One field descriptor of a format as mathematical values: everything
/// about the field that decides how its value is read and rendered.
pub struct FieldLayout {
    /// The field's name.
    pub name: Seq<char>,
    /// Byte offset of the field in the raw data.
    pub offset: u16,
    /// Byte size of the field; 0 for "the rest of the event".
    pub size: u16,
    /// How the field's bytes are found.
    pub array: FieldArray,
    /// Size in bytes of one element; 0 for strings and blobs.
    pub element_size: u8,
    /// Number of elements deduced from the declaration.
    pub array_count: u16,
    /// Type tag: how the bytes of an element are encoded.
    pub encoding: u8,
    /// Type tag: how an element is rendered.
    pub rendering: u8,
}

/// A format as mathematical values.
pub struct FormatLayout {
    /// The tracepoint name of the "name:" property.
    pub name: Seq<char>,
    /// The field descriptors in declaration order, common fields first.
    pub fields: Seq<FieldLayout>,
    /// How many of the leading fields are common fields.
    pub common_field_count: nat,
    /// Byte offset at which the common fields end.
    pub common_fields_size: u16,
    /// The payload after the common fields describes itself.
    pub self_describing: bool,
}

/// What a `PerfEventFormat` holds, as `PerfEventFormat::parse` left it:
/// name, fields, common-field count and size, and decoding style.
pub uninterp spec fn format_layout(format: PerfEventFormat) -> FormatLayout;

/// The properties of a format that do not belong to a single field.
#[derive(Debug)]
pub(crate) struct FormatHeader {
    pub name: String,
    pub field_count: usize,
    pub common_field_count: usize,
    pub common_fields_size: u16,
    pub self_describing: bool,
}

impl FormatHeader {
    /// The header states these properties of the layout.
    pub(crate) open spec fn describes(&self, layout: FormatLayout) -> bool {
        &&& self.name@ == layout.name
        &&& self.field_count == layout.fields.len()
        &&& self.common_field_count == layout.common_field_count
        &&& self.common_fields_size == layout.common_fields_size
        &&& self.self_describing == layout.self_describing
    }
}

/// The name, position and shape of one field.
#[derive(Debug)]
pub struct FieldDescriptor {
    pub name: String,
    pub offset: u16,
    pub size: u16,
    pub array: FieldArray,
    pub element_size: u8,
}

impl FieldDescriptor {
    /// The descriptor states these properties of the field's layout.
    pub open spec fn describes(&self, layout: FieldLayout) -> bool {
        &&& self.name@ == layout.name
        &&& self.offset == layout.offset
        &&& self.size == layout.size
        &&& self.array == layout.array
        &&& self.element_size == layout.element_size
    }
}

/// Reads `PerfEventFormat::name`, `fields().len()`, `common_field_count`,
/// `common_fields_size` and `decoding_style` of a format. The claim is that
/// these getters return what the format holds; `self_describing` stands for
/// the decoding style `EventHeader`.
#[verifier::external_body]
pub(crate) fn format_header(format: &PerfEventFormat) -> (header: FormatHeader)
    ensures
        header.describes(format_layout(*format)),
{
    FormatHeader {
        name: format.name().to_string(),
        field_count: format.fields().len(),
        common_field_count: format.common_field_count(),
        common_fields_size: format.common_fields_size(),
        self_describing: match format.decoding_style() {
            PerfEventDecodingStyle::EventHeader => true,
            PerfEventDecodingStyle::TraceEventFormat => false,
        },
    }
}

/// Reads `name`, `offset`, `size`, `array` and `element_size` of the
/// `index`-th entry of `PerfEventFormat::fields`. The claim is that these
/// getters return what the field holds.
#[verifier::external_body]
fn field_at(format: &PerfEventFormat, index: usize) -> (field: FieldDescriptor)
    requires
        index < format_layout(*format).fields.len(),
    ensures
        field.describes(format_layout(*format).fields[index as int]),
{
    let f = &format.fields()[index];
    let array = match f.array() {
        PerfFieldArray::None => FieldArray::Single,
        PerfFieldArray::Fixed => FieldArray::Fixed,
        PerfFieldArray::RestOfEvent => FieldArray::RestOfEvent,
        PerfFieldArray::RelLoc2 => FieldArray::RelLoc2,
        PerfFieldArray::DataLoc2 => FieldArray::DataLoc2,
        PerfFieldArray::RelLoc4 => FieldArray::RelLoc4,
        PerfFieldArray::DataLoc4 => FieldArray::DataLoc4,
    };
    let (name, element_size) = (f.name().to_string(), f.element_size());
    FieldDescriptor { name, offset: f.offset(), size: f.size(), array, element_size }
}

/// The `size` bytes at `offset` lie inside the raw data.
pub open spec fn declared_place_inside(layout: FieldLayout, raw: Seq<u8>) -> bool {
    layout.offset + layout.size <= raw.len()
}

/// The bytes of a field with this layout lie inside `raw`. The `size`
/// bytes at `offset` have to lie inside it in any case. They are the
/// field's bytes for a single value and a fixed array, and the field's
/// first bytes where the field is the rest of the event. For the other
/// kinds they point to the field's bytes: two bytes hold a position, which
/// counts from the start of the raw data or from the end of the two bytes;
/// four bytes hold a position and a length as two 16-bit numbers.
pub open spec fn field_inside(layout: FieldLayout, raw: Seq<u8>, big_endian: bool) -> bool {
    let first = u16_at(raw, layout.offset as int, !big_endian);
    let second = u16_at(raw, layout.offset + 2, !big_endian);
    &&& declared_place_inside(layout, raw)
    &&& match layout.array {
        FieldArray::Single => true,
        FieldArray::Fixed => true,
        FieldArray::RestOfEvent => true,
        FieldArray::DataLoc2 => first <= raw.len(),
        FieldArray::RelLoc2 => first + layout.offset + layout.size <= raw.len(),
        FieldArray::DataLoc4 => first + second <= raw.len(),
        FieldArray::RelLoc4 => first + second <= raw.len(),
    }
}

/// Calls `PerfFieldFormat::get_field_bytes` on the `index`-th field and
/// tells whether it found the field's bytes. The call only reads: it
/// returns nothing where `raw` is too short for the `size` bytes at
/// `offset`, or for the bytes that these point to. A field that holds a
/// position has a size of two bytes, one that holds a position and a
/// length has a size of four.
#[verifier::external_body]
fn field_bytes_present(
    format: &PerfEventFormat,
    index: usize,
    raw: &[u8],
    big_endian: bool,
) -> (present: bool)
    requires
        index < format_layout(*format).fields.len(),
    ensures
        present == field_inside(format_layout(*format).fields[index as int], raw@, big_endian),
{
    format.fields()[index].get_field_bytes(raw, PerfByteReader::new(big_endian)).is_some()
}

/// The text that `PerfItemValue::display` gives for the value that
/// `PerfFieldFormat::get_field_value_with_data_and_reader` reads from `raw`
/// for a field with this layout.
pub uninterp spec fn field_value_text(
    layout: FieldLayout,
    raw: Seq<u8>,
    big_endian: bool,
) -> Seq<char>;

/// Largest raw data that a record can carry: its size is a 16-bit number.
pub const RAW_DATA_MAX: usize = 0xFFFF;

/// The value of a field with this layout can be read from `raw` and
/// rendered: its bytes lie inside `raw`, and where they are not simply the
/// `size` bytes at `offset`, the field has elements of a known size and
/// `raw` is no longer than a record can be.
pub open spec fn renderable(layout: FieldLayout, raw: Seq<u8>, big_endian: bool) -> bool {
    &&& field_inside(layout, raw, big_endian)
    &&& layout.array.sized() || (layout.element_size != 0 && raw.len() <= RAW_DATA_MAX)
}

/// Calls `PerfFieldFormat::get_field_value_with_data_and_reader` on the
/// `index`-th field and renders the value with `PerfItemValue::display`.
/// The `requires` leaves out what those two do not take: a field whose
/// bytes are not in `raw` (the empty value has no rendering), and a field
/// of unsized elements that is not read at its declared place (the reader
/// computes an alignment mask from the element size).
#[verifier::external_body]
fn field_value_text_at(
    format: &PerfEventFormat,
    index: usize,
    raw: &[u8],
    big_endian: bool,
) -> (text: String)
    requires
        index < format_layout(*format).fields.len(),
        renderable(format_layout(*format).fields[index as int], raw@, big_endian),
    ensures
        text@ == field_value_text(
            format_layout(*format).fields[index as int],
            raw@,
            big_endian,
        ),
{
    let reader = PerfByteReader::new(big_endian);
    let value = format.fields()[index].get_field_value_with_data_and_reader(raw, reader);
    value.display().to_string()
}

/// The descriptor of the `index`-th declared field, or nothing where the
/// format declares no such field.
pub fn describe_field(format: &PerfEventFormat, index: usize) -> (field: Option<FieldDescriptor>)
    ensures
        index < format_layout(*format).fields.len() ==> field is Some && field->Some_0.describes(
            format_layout(*format).fields[index as int],
        ),
        index >= format_layout(*format).fields.len() ==> field is None,
{
    let header = format_header(format);
    if index < header.field_count {
        Some(field_at(format, index))
    } else {
        None
    }
}

/// One decoded field: its name and the rendering of its value. The value
/// is missing where the record does not hold the field's bytes or the
/// field cannot be rendered.
#[derive(Debug)]
pub struct DecodedField {
    pub name: String,
    pub value: Option<String>,
}

/// A decoded field as mathematical values.
pub struct DecodedFieldView {
    pub name: Seq<char>,
    pub value: Option<Seq<char>>,
}

impl View for DecodedField {
    type V = DecodedFieldView;

    open spec fn view(&self) -> DecodedFieldView {
        DecodedFieldView {
            name: self.name@,
            value: match self.value {
                Some(text) => Some(text@),
                None => None,
            },
        }
    }
}

/// What decoding a field with this layout against `raw` yields.
pub open spec fn decoded_field(
    layout: FieldLayout,
    raw: Seq<u8>,
    big_endian: bool,
) -> DecodedFieldView {
    DecodedFieldView {
        name: layout.name,
        value: if renderable(layout, raw, big_endian) {
            Some(field_value_text(layout, raw, big_endian))
        } else {
            None
        },
    }
}

/// Index of the first declared field that is emitted: the common fields
/// are skipped, as many as the format itself declares.
pub open spec fn emitted_start(layout: FormatLayout) -> int {
    if layout.common_field_count <= layout.fields.len() {
        layout.common_field_count as int
    } else {
        layout.fields.len() as int
    }
}

/// Number of fields that are emitted: at most `limit`, and no more than
/// the format declares after its common fields.
pub open spec fn emitted_count(layout: FormatLayout, limit: nat) -> int {
    let available = layout.fields.len() - emitted_start(layout);
    if limit <= available {
        limit as int
    } else {
        available
    }
}

/// What the format-driven stage yields for a record: for each emitted
/// field, in declaration order, its name and the rendering of its value.
pub open spec fn format_fields(
    layout: FormatLayout,
    raw: Seq<u8>,
    big_endian: bool,
    limit: nat,
) -> Seq<DecodedFieldView> {
    Seq::new(
        emitted_count(layout, limit) as nat,
        |j: int| decoded_field(layout.fields[emitted_start(layout) + j], raw, big_endian),
    )
}

/// The views of decoded fields, in order.
pub open spec fn field_views(fields: Seq<DecodedField>) -> Seq<DecodedFieldView> {
    Seq::new(fields.len(), |j: int| fields[j]@)
}

/// Decodes the `index`-th declared field against the raw data of a
/// record. The value is rendered by `tracepoint_decode` wherever the field
/// is renderable, and left out otherwise.
pub fn decode_field(
    format: &PerfEventFormat,
    index: usize,
    raw: &[u8],
    big_endian: bool,
) -> (field: DecodedField)
    requires
        index < format_layout(*format).fields.len(),
    ensures
        field@ == decoded_field(
            format_layout(*format).fields[index as int],
            raw@,
            big_endian,
        ),
        field.value is Some ==> declared_place_inside(
            format_layout(*format).fields[index as int],
            raw@,
        ),
        format_layout(*format).fields[index as int].array.sized() ==> (field.value is Some
            <==> declared_place_inside(format_layout(*format).fields[index as int], raw@)),
{
    let descriptor = field_at(format, index);
    let present = field_bytes_present(format, index, raw, big_endian);
    let value = if present && (descriptor.array.is_sized() || (descriptor.element_size != 0
        && raw.len() <= RAW_DATA_MAX)) {
        Some(field_value_text_at(format, index, raw, big_endian))
    } else {
        None
    };
    DecodedField { name: descriptor.name, value }
}

/// The format-driven stage: skips the common fields that the format
/// declares, then decodes the fields that follow, in declaration order,
/// until `limit` fields are decoded or the format has no more.
pub fn decode_format_fields(
    format: &PerfEventFormat,
    raw: &[u8],
    big_endian: bool,
    limit: usize,
) -> (fields: Vec<DecodedField>)
    ensures
        field_views(fields@) == format_fields(
            format_layout(*format),
            raw@,
            big_endian,
            limit as nat,
        ),
        fields@.len() <= limit,
{
    let header = format_header(format);
    let ghost layout = format_layout(*format);
    let start = if header.common_field_count <= header.field_count {
        header.common_field_count
    } else {
        header.field_count
    };
    let mut fields: Vec<DecodedField> = Vec::new();
    let mut index = start;
    while index < header.field_count && fields.len() < limit
        invariant
            layout == format_layout(*format),
            header.describes(layout),
            start == emitted_start(layout),
            start <= index <= header.field_count,
            fields@.len() == index - start,
            fields@.len() <= limit,
            forall|j: int|
                0 <= j < fields@.len() ==> (#[trigger] fields@[j])@ == decoded_field(
                    layout.fields[start + j],
                    raw@,
                    big_endian,
                ),
        decreases header.field_count - index,
    {
        let field = decode_field(format, index, raw, big_endian);
        fields.push(field);
        index = index + 1;
    }
    assert(field_views(fields@) =~= format_fields(layout, raw@, big_endian, limit as nat));
    fields
}

/// The format-driven stage never emits a common field: the `j`-th emitted
/// field is the declared field at index `K + j`, where `K` is the format's
/// common-field count, so none of the first `K` declared fields appears.
pub proof fn lemma_common_fields_skipped(
    layout: FormatLayout,
    raw: Seq<u8>,
    big_endian: bool,
    limit: nat,
    j: int,
)
    requires
        0 <= j < format_fields(layout, raw, big_endian, limit).len(),
    ensures
        layout.common_field_count + j < layout.fields.len(),
        format_fields(layout, raw, big_endian, limit)[j] == decoded_field(
            layout.fields[layout.common_field_count + j],
            raw,
            big_endian,
        ),
        format_fields(layout, raw, big_endian, limit)[j].name == layout.fields[
            layout.common_field_count + j
        ].name,
{
}

/// The format-driven stage emits no more fields than asked for and no more
/// than the format declares after its common fields; it emits nothing
/// at all where the format declares only common fields.
pub proof fn lemma_emitted_bounds(layout: FormatLayout, raw: Seq<u8>, big_endian: bool, limit: nat)
    ensures
        format_fields(layout, raw, big_endian, limit).len() <= limit,
        format_fields(layout, raw, big_endian, limit).len() <= layout.fields.len(),
        layout.fields.len() <= layout.common_field_count ==> format_fields(
            layout,
            raw,
            big_endian,
            limit,
        ).len() == 0,
{
}

/// The part of the raw data that follows the common fields; empty where
/// the raw data is shorter than the common fields.
pub open spec fn user_data_of(raw: Seq<u8>, common_fields_size: u16) -> Seq<u8> {
    if common_fields_size <= raw.len() {
        raw.subrange(common_fields_size as int, raw.len() as int)
    } else {
        Seq::empty()
    }
}

/// Cuts the common fields off the raw data of a record.
pub fn user_data<'a>(raw: &'a [u8], common_fields_size: u16) -> (user: &'a [u8])
    ensures
        user@ == user_data_of(raw@, common_fields_size),
{
    if common_fields_size as usize <= raw.len() {
        slice_subrange(raw, common_fields_size as usize, raw.len())
    } else {
        let empty = slice_subrange(raw, 0, 0);
        assert(empty@ =~= Seq::<u8>::empty());
        empty
    }
}

} // verus!
