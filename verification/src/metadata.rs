//! The self-describing stage: a payload that carries its own metadata is
//! walked with the enumerator of `tracepoint_decode`. The enumerator is a
//! cursor over the items of one event; this module drives it and collects
//! the labels of the top-level items.

use vstd::prelude::*;
use tracepoint_decode::EventHeaderEnumerator;
use tracepoint_decode::EventHeaderEnumeratorContext;
use tracepoint_decode::EventHeaderEnumeratorError;
use tracepoint_decode::EventHeaderEnumeratorState;
use crate::definitions::EventLayout;
use crate::definitions::event_is_sound;
use crate::definitions::event_sound;

verus! {

/// `tracepoint_decode::EventHeaderEnumeratorContext`: the working storage
/// of an enumeration, reused from event to event.
#[verifier::external_type_specification]
#[verifier::external_body]
pub struct ExEnumeratorContext(EventHeaderEnumeratorContext);

/// `tracepoint_decode::EventHeaderEnumerator`: a cursor over the items of
/// one event. `cursor_view` names what it stands on and what it will yield.
#[verifier::external_type_specification]
#[verifier::external_body]
pub struct ExEnumerator<'ctx, 'nam, 'dat>(EventHeaderEnumerator<'ctx, 'nam, 'dat>);

/// `tracepoint_decode::EventHeaderEnumeratorError`: why an enumeration
/// could not be started.
#[verifier::external_type_specification]
#[verifier::external_body]
pub struct ExEnumeratorError(EventHeaderEnumeratorError);

/// Upper bound on the steps of one enumeration, so that a malformed event
/// cannot keep the cursor busy.
pub const MOVE_NEXT_LIMIT: u32 = 4096;

/// Size of the fixed header that every self-describing payload starts with.
pub const EVENT_HEADER_SIZE: usize = 8;

/// Where a cursor stands. The order of the variants is the order of the
/// enumerator's states: the states from `BeforeFirstItem` on allow a move,
/// the states from `Value` on stand on an item.
#[derive(Clone, Copy, Debug, PartialEq, Eq, Structural)]
pub enum CursorState {
    Error,
    AfterLastItem,
    BeforeFirstItem,
    Value,
    ArrayBegin,
    ArrayEnd,
    StructBegin,
    StructEnd,
}

impl CursorState {
    /// The cursor has left the event, at its end or by an error.
    pub open spec fn ended(self) -> bool {
        self == CursorState::Error || self == CursorState::AfterLastItem
    }

    /// The cursor stands on an item, whose name and value can be read.
    pub open spec fn on_item(self) -> bool {
        !self.ended() && self != CursorState::BeforeFirstItem
    }

    /// Tells whether a move is allowed: the state is `BeforeFirstItem` or
    /// a later one.
    pub fn can_move(self) -> (allowed: bool)
        ensures
            allowed == !self.ended(),
    {
        match self {
            CursorState::Error => false,
            CursorState::AfterLastItem => false,
            _ => true,
        }
    }

    /// Tells whether the cursor stands on an item: the state is `Value` or
    /// a later one.
    pub fn is_on_item(self) -> (on_item: bool)
        ensures
            on_item == self.on_item(),
    {
        match self {
            CursorState::Error => false,
            CursorState::AfterLastItem => false,
            CursorState::BeforeFirstItem => false,
            _ => true,
        }
    }
}

/// A cursor as mathematical values.
pub struct CursorView {
    /// Where the cursor stands.
    pub state: CursorState,
    /// The labels of the items that sibling moves yield from here on: the
    /// label of the item the cursor stands on, if it stands on one, then
    /// the labels of the items that each further sibling move reaches.
    /// Before the first item these are the items that follow the first
    /// move; after the end and after an error there are none.
    pub items: Seq<Seq<char>>,
    /// The metadata summary of the event as a whole.
    pub summary: Seq<char>,
    /// The payload that the cursor walks, and where the event's name lies
    /// in it.
    pub event: EventLayout,
    /// The cursor walks the items of the event with their values, as it
    /// does from the start. An enumerator that was sent through the
    /// definitions alone, without values, does not: it cannot be moved
    /// from item to item any more.
    pub walking: bool,
    /// The cursor has not gone into a struct or an array: where it stands
    /// on an item, the item is a top-level one.
    pub top_level: bool,
}

/// What an enumerator stands on and what it will yield.
pub uninterp spec fn cursor_view(cursor: EventHeaderEnumerator) -> CursorView;

/// The cursor that `EventHeaderEnumeratorContext::enumerate_with_name_and_data`
/// returns for a tracepoint name, a payload and a step limit, or nothing
/// where it refuses the payload.
pub uninterp spec fn eventheader_open(
    name: Seq<char>,
    data: Seq<u8>,
    limit: u32,
) -> Option<CursorView>;

/// Calls `EventHeaderEnumeratorContext::new`. Nothing is claimed of the
/// fresh context.
#[verifier::external_body]
fn new_context() -> (context: EventHeaderEnumeratorContext) {
    EventHeaderEnumeratorContext::new()
}

/// Calls `EventHeaderEnumeratorContext::enumerate_with_name_and_data`. It
/// returns a cursor over the payload, positioned before the first item and
/// set to walk the items with their values, or an error; a payload shorter
/// than the fixed header is always refused.
#[verifier::external_body]
fn open_cursor<'ctx, 'nam, 'dat>(
    context: &'ctx mut EventHeaderEnumeratorContext,
    name: &'nam str,
    data: &'dat [u8],
    limit: u32,
) -> (opened: Result<EventHeaderEnumerator<'ctx, 'nam, 'dat>, EventHeaderEnumeratorError>)
    ensures
        match opened {
            Ok(cursor) => eventheader_open(name@, data@, limit) == Some(cursor_view(cursor))
                && cursor_view(cursor).state == CursorState::BeforeFirstItem
                && cursor_view(cursor).walking && cursor_view(cursor).top_level
                && cursor_view(cursor).event.data == data@,
            Err(_) => eventheader_open(name@, data@, limit) is None,
        },
        data@.len() < EVENT_HEADER_SIZE ==> opened is Err,
{
    context.enumerate_with_name_and_data(name, data, limit)
}

/// Calls `EventHeaderEnumerator::event_info` and reads `name_start` and
/// `name_len` of it: where the event's name lies in the payload.
#[verifier::external_body]
fn cursor_name_range(cursor: &EventHeaderEnumerator) -> (range: (usize, usize))
    ensures
        range.0 == cursor_view(*cursor).event.name_start,
        range.1 == cursor_view(*cursor).event.name_len,
{
    let info = cursor.event_info();
    (info.name_start() as usize, info.name_len() as usize)
}

/// Calls `EventHeaderEnumerator::state`. A walking enumerator that stands
/// on an item has that item to yield; one that has ended yields nothing
/// more.
#[verifier::external_body]
fn cursor_state(cursor: &EventHeaderEnumerator) -> (state: CursorState)
    ensures
        state == cursor_view(*cursor).state,
        state.on_item() && cursor_view(*cursor).walking ==> cursor_view(*cursor).items.len() > 0,
        state.ended() ==> cursor_view(*cursor).items.len() == 0,
{
    match cursor.state() {
        EventHeaderEnumeratorState::Error => CursorState::Error,
        EventHeaderEnumeratorState::AfterLastItem => CursorState::AfterLastItem,
        EventHeaderEnumeratorState::BeforeFirstItem => CursorState::BeforeFirstItem,
        EventHeaderEnumeratorState::Value => CursorState::Value,
        EventHeaderEnumeratorState::ArrayBegin => CursorState::ArrayBegin,
        EventHeaderEnumeratorState::ArrayEnd => CursorState::ArrayEnd,
        EventHeaderEnumeratorState::StructBegin => CursorState::StructBegin,
        EventHeaderEnumeratorState::StructEnd => CursorState::StructEnd,
    }
}

/// Calls `EventHeaderEnumerator::move_next`. It asks for a state that
/// allows a move and for an enumerator that walks the items with their
/// values; and it reads the definitions without the checks that a sound
/// event makes up for. It returns true where it reached an item; otherwise
/// the cursor has ended. The first move only enters the event: what the
/// cursor yields stays the same.
#[verifier::external_body]
fn cursor_move_next(cursor: &mut EventHeaderEnumerator) -> (moved: bool)
    requires
        !cursor_view(*old(cursor)).state.ended(),
        cursor_view(*old(cursor)).walking,
        event_sound(cursor_view(*old(cursor)).event),
    ensures
        moved == cursor_view(*final(cursor)).state.on_item(),
        !moved ==> cursor_view(*final(cursor)).state.ended(),
        cursor_view(*final(cursor)).walking,
        cursor_view(*final(cursor)).event == cursor_view(*old(cursor)).event,
        cursor_view(*old(cursor)).state == CursorState::BeforeFirstItem ==> cursor_view(
            *final(cursor),
        ).items == cursor_view(*old(cursor)).items && cursor_view(*final(cursor)).top_level,
{
    cursor.move_next()
}

/// Calls `EventHeaderEnumerator::move_next_sibling`, which asks for what
/// `move_next` asks for. It returns true where it reached an item;
/// otherwise the cursor has ended. From an item it passes over the item and
/// all that the item contains, so the first of the items to yield is gone
/// and the others stay, and a cursor at the top level stays there.
#[verifier::external_body]
fn cursor_move_next_sibling(cursor: &mut EventHeaderEnumerator) -> (moved: bool)
    requires
        !cursor_view(*old(cursor)).state.ended(),
        cursor_view(*old(cursor)).walking,
        event_sound(cursor_view(*old(cursor)).event),
    ensures
        moved == cursor_view(*final(cursor)).state.on_item(),
        !moved ==> cursor_view(*final(cursor)).state.ended(),
        cursor_view(*final(cursor)).walking,
        cursor_view(*final(cursor)).event == cursor_view(*old(cursor)).event,
        cursor_view(*old(cursor)).state.on_item() ==> cursor_view(*final(cursor)).items
            == cursor_view(*old(cursor)).items.skip(1),
        cursor_view(*old(cursor)).top_level ==> cursor_view(*final(cursor)).top_level,
{
    cursor.move_next_sibling()
}

/// Calls `EventHeaderEnumerator::item_info`, which asks for a cursor that
/// stands on an item, and which asserts of the item's definition that it
/// does not set both array flags and that an array of structs has a field
/// count: hence a sound event, walked from top-level item to top-level
/// item. Renders `name_and_tag_display` of the item: its name, with the
/// tag behind it where the tag is not zero.
#[verifier::external_body]
fn cursor_label(cursor: &EventHeaderEnumerator) -> (label: String)
    requires
        cursor_view(*cursor).state.on_item(),
        cursor_view(*cursor).walking,
        cursor_view(*cursor).top_level,
        event_sound(cursor_view(*cursor).event),
    ensures
        label@ == cursor_view(*cursor).items[0],
{
    cursor.item_info().name_and_tag_display().to_string()
}

/// Calls `EventHeaderEnumerator::event_info` and renders its
/// `json_meta_display` without sample information: the metadata of the
/// event as a list of name-value pairs.
#[verifier::external_body]
fn cursor_summary(cursor: &EventHeaderEnumerator) -> (summary: String)
    ensures
        summary@ == cursor_view(*cursor).summary,
{
    cursor.event_info().json_meta_display(None).to_string()
}

/// The views of labels, in order.
pub open spec fn label_views(labels: Seq<String>) -> Seq<Seq<char>> {
    Seq::new(labels.len(), |j: int| labels[j]@)
}

/// The first `limit` of `items`, or all of them where there are fewer.
pub open spec fn first_items(items: Seq<Seq<char>>, limit: nat) -> Seq<Seq<char>> {
    if limit <= items.len() {
        items.take(limit as int)
    } else {
        items
    }
}

/// Collects the labels of the top-level items of a sound event, in
/// document order, until `limit` labels are collected or the cursor has
/// ended. A cursor that has not entered the event yet is moved to the
/// first item; from an item on, each step passes over the item's children
/// to its next sibling. The cursor is left on the item behind the last
/// label.
pub(crate) fn collect_labels(cursor: &mut EventHeaderEnumerator, limit: usize) -> (labels: Vec<
    String,
>)
    requires
        cursor_view(*old(cursor)).walking,
        cursor_view(*old(cursor)).top_level,
        event_sound(cursor_view(*old(cursor)).event),
    ensures
        label_views(labels@) == first_items(cursor_view(*old(cursor)).items, limit as nat),
        cursor_view(*final(cursor)).items == cursor_view(*old(cursor)).items.skip(
            labels@.len() as int,
        ),
        cursor_view(*final(cursor)).event == cursor_view(*old(cursor)).event,
        cursor_view(*final(cursor)).walking,
        cursor_view(*final(cursor)).top_level,
{
    let ghost items = cursor_view(*cursor).items;
    let ghost event = cursor_view(*cursor).event;
    let mut labels: Vec<String> = Vec::new();
    let mut state = cursor_state(cursor);
    if state == CursorState::BeforeFirstItem {
        let _ = cursor_move_next(cursor);
        state = cursor_state(cursor);
    }
    assert(items.skip(0) =~= items);
    while state.can_move() && labels.len() < limit
        invariant
            state == cursor_view(*cursor).state,
            state != CursorState::BeforeFirstItem,
            cursor_view(*cursor).walking,
            cursor_view(*cursor).top_level,
            cursor_view(*cursor).event == event,
            event_sound(event),
            state.on_item() ==> cursor_view(*cursor).items.len() > 0,
            state.ended() ==> cursor_view(*cursor).items.len() == 0,
            labels@.len() <= limit,
            labels@.len() <= items.len(),
            cursor_view(*cursor).items == items.skip(labels@.len() as int),
            forall|j: int| 0 <= j < labels@.len() ==> (#[trigger] labels@[j])@ == items[j],
        decreases limit - labels.len(),
    {
        let label = cursor_label(cursor);
        assert(label@ == items[labels@.len() as int]);
        labels.push(label);
        let _ = cursor_move_next_sibling(cursor);
        state = cursor_state(cursor);
        assert(items.skip(labels@.len() - 1).skip(1) =~= items.skip(labels@.len() as int));
    }
    assert(label_views(labels@) =~= first_items(items, limit as nat));
    labels
}

/// What the self-describing stage found in a payload.
#[derive(Debug)]
pub struct MetadataFields {
    /// The metadata summary of the event.
    pub summary: String,
    /// The labels of the first top-level items.
    pub labels: Vec<String>,
}

/// The result of the self-describing stage as mathematical values.
pub struct MetadataView {
    pub summary: Seq<char>,
    pub labels: Seq<Seq<char>>,
}

impl View for MetadataFields {
    type V = MetadataView;

    open spec fn view(&self) -> MetadataView {
        MetadataView { summary: self.summary@, labels: label_views(self.labels@) }
    }
}

/// The labels that are collected from an event: the first `limit` labels
/// of its top-level items where the event is sound; none where it is not,
/// because its items cannot be walked safely.
pub open spec fn collected_labels(view: CursorView, limit: nat) -> Seq<Seq<char>> {
    if event_sound(view.event) {
        first_items(view.items, limit)
    } else {
        Seq::empty()
    }
}

/// What the self-describing stage yields for a tracepoint name and a
/// payload: nothing where the enumerator refuses the payload, because it
/// carries no metadata of its own; else the summary of the event and the
/// labels collected from it.
pub open spec fn metadata_fields(
    name: Seq<char>,
    data: Seq<u8>,
    limit: nat,
) -> Option<MetadataView> {
    match eventheader_open(name, data, MOVE_NEXT_LIMIT) {
        Some(view) => Some(
            MetadataView { summary: view.summary, labels: collected_labels(view, limit) },
        ),
        None => None,
    }
}

/// Working storage for the self-describing stage, created once and used
/// for every sample of a pass. It carries nothing from one sample to the
/// next: what a decode returns depends on the sample alone.
pub struct SampleDecoder {
    context: EventHeaderEnumeratorContext,
}

impl SampleDecoder {
    /// A decoder with fresh working storage.
    pub fn new() -> (decoder: SampleDecoder) {
        SampleDecoder { context: new_context() }
    }

    /// The self-describing stage: tries to open an enumeration over the
    /// payload. Where that succeeds the payload carries its own metadata:
    /// the summary of the event is taken, then, where the event is sound,
    /// the labels of at most `limit` top-level items. Where it fails
    /// nothing is returned, and the caller may fall back on another schema.
    pub fn decode_metadata(
        &mut self,
        name: &str,
        data: &[u8],
        limit: usize,
    ) -> (found: Option<MetadataFields>)
        ensures
            match found {
                Some(fields) => metadata_fields(name@, data@, limit as nat) == Some(fields@),
                None => metadata_fields(name@, data@, limit as nat) is None,
            },
            found is Some <==> eventheader_open(name@, data@, MOVE_NEXT_LIMIT) is Some,
            found is Some ==> found->Some_0.summary@ == eventheader_open(
                name@,
                data@,
                MOVE_NEXT_LIMIT,
            )->Some_0.summary,
            data@.len() < EVENT_HEADER_SIZE ==> found is None,
    {
        match open_cursor(&mut self.context, name, data, MOVE_NEXT_LIMIT) {
            Ok(mut cursor) => {
                let ghost view = cursor_view(cursor);
                let summary = cursor_summary(&cursor);
                let (name_start, name_len) = cursor_name_range(&cursor);
                let labels = if event_is_sound(data, name_start, name_len) {
                    collect_labels(&mut cursor, limit)
                } else {
                    Vec::new()
                };
                assert(label_views(labels@) =~= collected_labels(view, limit as nat));
                Some(MetadataFields { summary, labels })
            },
            Err(_) => None,
        }
    }
}

/// No more labels are collected than asked for, and they are the leading
/// items of the event in document order.
pub proof fn lemma_first_items_is_prefix(items: Seq<Seq<char>>, limit: nat)
    ensures
        first_items(items, limit).len() <= limit,
        first_items(items, limit).len() <= items.len(),
        first_items(items, limit).len() == limit || first_items(items, limit) == items,
        forall|j: int|
            0 <= j < first_items(items, limit).len() ==> first_items(items, limit)[j] == items[j],
{
}

} // verus!
