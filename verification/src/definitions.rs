//! The field definitions in the metadata of a self-describing event, and
//! the rules that they have to follow before the event is enumerated.
//!
//! The metadata holds the name of the event and then one definition per
//! field: the field's name, a byte for its encoding, and, as the flags of
//! these bytes ask for it, a byte for its format, two bytes for its tag and
//! two bytes for the length of a constant-length array. A field that is a
//! struct gives the number of its fields in place of the format; the
//! definitions of those fields follow its own.
//!
//! The enumerator of `tracepoint_decode` reads these definitions as it
//! walks an event, and it relies on three things without checking them:
//!
//! - A top-level field, of which a label is asked, does not set both
//!   array flags, and where it is an array of structs it says how many
//!   fields the struct has.
//! - A constant-length array of structs has one element: from the second
//!   element on the enumerator reads the struct's fields two bytes too
//!   early, from the array's length on, and what it reads from there is no
//!   longer what the metadata says.
//! - Where it passes over an array of structs without elements, it sums up
//!   in a byte the field counts of the structs that follow. Only an array
//!   of variable length can be without elements, so the field counts from
//!   the first such array on have to stay within a byte, all together.
//!
//! `event_sound` states these rules over the definitions in the order in
//! which they stand in the metadata, and `event_is_sound` tests them. A
//! definition is that of a top-level field where no struct before it has
//! announced it as one of its fields. The labels of an event are collected
//! only where the event is sound.

use vstd::prelude::*;

verus! {

/// Flag of the payload's first byte: numbers are stored low byte first.
pub const LITTLE_ENDIAN_FLAG: u8 = 0x02;

/// Flag of an encoding or format byte: another byte follows it.
pub const CHAIN_FLAG: u8 = 0x80;

/// Flag of an encoding byte: an array whose length stands in the metadata.
pub const CONSTANT_ARRAY_FLAG: u8 = 0x20;

/// Flag of an encoding byte: an array whose length stands in the payload.
pub const VARIABLE_ARRAY_FLAG: u8 = 0x40;

/// The two array flags of an encoding byte.
pub const ARRAY_FLAGS: u8 = 0x60;

/// The bits of an encoding byte that say how a value is encoded.
pub const ENCODING_MASK: u8 = 0x1F;

/// The encoding of a struct.
pub const STRUCT_ENCODING: u8 = 1;

/// Largest sum that the enumerator can hold when it adds up field counts.
pub const STRUCT_FIELDS_MAX: usize = 255;

/// Largest size of the metadata: its size is a 16-bit number.
pub const METADATA_MAX: usize = 0xFFFF;


/// Bytes between the start of an extension block and its content: two for
/// its size, two for its kind.
pub const EXTENSION_HEADER_SIZE: usize = 4;

/// The payload of an event together with the place of the event's name in
/// it, which is where the metadata starts.
pub struct EventLayout {
    /// The payload.
    pub data: Seq<u8>,
    /// Offset of the event's name in the payload.
    pub name_start: nat,
    /// Length of the event's name in bytes, without its terminator.
    pub name_len: nat,
}

/// The 16-bit number that two bytes of the payload spell.
pub open spec fn u16_at(data: Seq<u8>, at: int, little_endian: bool) -> int {
    if little_endian {
        data[at] + 256 * data[at + 1]
    } else {
        256 * data[at] + data[at + 1]
    }
}

/// The end of the name that starts at `at`: the position of its
/// terminating zero, or `end` where no zero comes before it.
pub open spec fn name_end(data: Seq<u8>, at: int, end: int) -> int
    decreases end - at,
{
    if at >= end || data[at] == 0 {
        at
    } else {
        name_end(data, at + 1, end)
    }
}

/// One field definition.
pub struct Definition {
    /// The encoding byte without its chain flag.
    pub encoding: u8,
    /// The format byte without its chain flag, 0 where there is none. For
    /// a struct this is the number of its fields.
    pub format: u8,
    /// The length of a constant-length array, 0 for any other field.
    pub length: int,
    /// Where the next definition starts.
    pub next: int,
}

impl Definition {
    /// The encoding sets both array flags, which the format reserves.
    pub open spec fn sets_both_array_flags(self) -> bool {
        self.encoding & ARRAY_FLAGS == ARRAY_FLAGS
    }

    /// The field is a struct or an array of structs.
    pub open spec fn is_struct(self) -> bool {
        self.encoding & ENCODING_MASK == STRUCT_ENCODING
    }

    /// The field is an array.
    pub open spec fn is_array(self) -> bool {
        self.encoding & ARRAY_FLAGS != 0
    }

    /// The field is an array whose length stands in the metadata.
    pub open spec fn is_constant_array(self) -> bool {
        self.encoding & ARRAY_FLAGS == CONSTANT_ARRAY_FLAG
    }

    /// The field is an array whose length stands in the payload, so that it
    /// can be without elements.
    pub open spec fn has_variable_length(self) -> bool {
        self.encoding & VARIABLE_ARRAY_FLAG != 0
    }

    /// The number of fields that the definition announces: the field count
    /// of a struct, nothing for any other field. The definitions of these
    /// fields follow the definition itself.
    pub open spec fn struct_fields(self) -> int {
        if self.is_struct() {
            self.format as int
        } else {
            0
        }
    }

    /// A label can be asked of the field: its encoding does not set both
    /// array flags, and an array of structs has a field count.
    pub open spec fn nameable(self) -> bool {
        &&& !self.sets_both_array_flags()
        &&& !(self.is_struct() && self.is_array() && self.format == 0)
    }

    /// The fields of the struct are read where they stand: the field is
    /// no constant-length array of structs with more than one element.
    pub open spec fn read_in_place(self) -> bool {
        !(self.is_struct() && self.is_constant_array() && self.length >= 2)
    }
}

/// What has been read on the way through the definitions.
pub struct Scan {
    /// How many of the definitions to come belong to the struct that the
    /// last top-level definition opened; 0 where the next definition is a
    /// top-level one.
    pub inside: int,
    /// An array of structs of variable length has been read.
    pub armed: bool,
    /// The field counts of the structs from that array on, summed up.
    pub fields: int,
}

impl Scan {
    /// Nothing has been read.
    pub open spec fn start() -> Scan {
        Scan { inside: 0, armed: false, fields: 0 }
    }

    /// The next definition is that of a top-level field.
    pub open spec fn top_level(self) -> bool {
        self.inside <= 0
    }

    /// The scan after one more definition.
    pub open spec fn after(self, definition: Definition) -> Scan {
        let armed = self.armed || (definition.is_struct() && definition.has_variable_length());
        Scan {
            inside: (if self.inside > 0 {
                self.inside - 1
            } else {
                0
            }) + definition.struct_fields(),
            armed,
            fields: if armed {
                self.fields + definition.struct_fields()
            } else {
                0
            },
        }
    }

    /// The definition follows the rules, read at this point of the scan.
    pub open spec fn admits(self, definition: Definition) -> bool {
        &&& self.top_level() ==> definition.nameable()
        &&& definition.read_in_place()
        &&& self.after(definition).fields <= STRUCT_FIELDS_MAX
    }
}

/// The definition whose bytes follow its encoding byte and format byte,
/// at `at`: the two bytes of an array length belong to it where the
/// encoding has the constant-length flag alone. Nothing where the metadata
/// ends inside it.
pub open spec fn with_array_length(
    data: Seq<u8>,
    encoding: u8,
    format: u8,
    at: int,
    end: int,
    little_endian: bool,
) -> Option<Definition> {
    if encoding & ARRAY_FLAGS == CONSTANT_ARRAY_FLAG {
        if end - at < 2 {
            None
        } else {
            Some(
                Definition {
                    encoding,
                    format,
                    length: u16_at(data, at, little_endian),
                    next: at + 2,
                },
            )
        }
    } else {
        Some(Definition { encoding, format, length: 0, next: at })
    }
}

/// The definition that starts at `at` in metadata that ends at `end`, or
/// nothing where the metadata ends inside it.
pub open spec fn definition_at(data: Seq<u8>, at: int, end: int, little_endian: bool) -> Option<
    Definition,
> {
    let stop = name_end(data, at, end);
    if end - stop < 2 {
        None
    } else {
        let encoding = data[stop + 1];
        if encoding & CHAIN_FLAG == 0 {
            with_array_length(data, encoding, 0, stop + 2, end, little_endian)
        } else if stop + 2 == end {
            None
        } else {
            let format = data[stop + 2];
            if format & CHAIN_FLAG == 0 {
                with_array_length(
                    data,
                    encoding & !CHAIN_FLAG,
                    format,
                    stop + 3,
                    end,
                    little_endian,
                )
            } else if end - (stop + 3) < 2 {
                None
            } else {
                with_array_length(
                    data,
                    encoding & !CHAIN_FLAG,
                    format & !CHAIN_FLAG,
                    stop + 5,
                    end,
                    little_endian,
                )
            }
        }
    }
}

/// The definitions from `at` on follow the rules, given what the scan has
/// read before them. The definitions are read one after the other; reading
/// ends with the metadata, with a definition that the metadata cuts short,
/// and with one whose encoding is zero, because the enumerator reads no
/// further either.
pub open spec fn definitions_sound(
    data: Seq<u8>,
    at: int,
    end: int,
    little_endian: bool,
    scan: Scan,
) -> bool
    decreases end - at,
{
    if at >= end {
        true
    } else {
        match definition_at(data, at, end, little_endian) {
            None => true,
            Some(definition) => if definition.encoding == 0 {
                true
            } else {
                &&& scan.admits(definition)
                &&& at < definition.next <= end ==> definitions_sound(
                    data,
                    definition.next,
                    end,
                    little_endian,
                    scan.after(definition),
                )
            },
        }
    }
}

/// The payload stores numbers low byte first.
pub open spec fn little_endian(data: Seq<u8>) -> bool {
    data[0] & LITTLE_ENDIAN_FLAG != 0
}

/// Where the metadata of the event ends: the metadata is the content of an
/// extension block, whose size stands four bytes before the content.
pub open spec fn metadata_end(event: EventLayout) -> int {
    event.name_start + u16_at(
        event.data,
        event.name_start - EXTENSION_HEADER_SIZE,
        little_endian(event.data),
    )
}

/// Where the field definitions start: behind the event's name and its
/// terminator.
pub open spec fn definitions_start(event: EventLayout) -> int {
    (event.name_start + event.name_len + 1) as int
}

/// The metadata lies inside the payload, and its field definitions follow
/// the rules that the enumerator relies on when the top-level fields of
/// the event are walked and named.
pub open spec fn event_sound(event: EventLayout) -> bool {
    &&& EXTENSION_HEADER_SIZE <= event.name_start
    &&& metadata_end(event) <= event.data.len()
    &&& definitions_start(event) <= metadata_end(event)
    &&& definitions_sound(
        event.data,
        definitions_start(event),
        metadata_end(event),
        little_endian(event.data),
        Scan::start(),
    )
}

/// Reads the 16-bit number at `at` in the byte order of the payload.
fn read_u16(data: &[u8], at: usize, little_endian: bool) -> (value: u16)
    requires
        at + 1 < data.len(),
    ensures
        value == u16_at(data@, at as int, little_endian),
{
    let first: u16 = data[at] as u16;
    let second: u16 = data[at + 1] as u16;
    if little_endian {
        first + 256 * second
    } else {
        256 * first + second
    }
}

/// Finds the end of the name that starts at `from`.
fn find_name_end(data: &[u8], from: usize, end: usize) -> (stop: usize)
    requires
        from <= end <= data.len(),
    ensures
        stop == name_end(data@, from as int, end as int),
        from <= stop <= end,
{
    let mut at = from;
    while at < end && data[at] != 0
        invariant
            from <= at <= end <= data.len(),
            name_end(data@, from as int, end as int) == name_end(data@, at as int, end as int),
        decreases end - at,
    {
        at = at + 1;
    }
    at
}

/// What `read_definition` found.
struct ReadDefinition {
    encoding: u8,
    format: u8,
    length: u16,
    next: usize,
}

impl ReadDefinition {
    spec fn definition(&self) -> Definition {
        Definition {
            encoding: self.encoding,
            format: self.format,
            length: self.length as int,
            next: self.next as int,
        }
    }
}

/// Completes a definition with the length of its array, where it has one.
fn read_array_length(
    data: &[u8],
    encoding: u8,
    format: u8,
    at: usize,
    end: usize,
    little_endian: bool,
) -> (read: Option<ReadDefinition>)
    requires
        at <= end <= data.len(),
    ensures
        match read {
            Some(definition) => with_array_length(
                data@,
                encoding,
                format,
                at as int,
                end as int,
                little_endian,
            ) == Some(definition.definition()) && at <= definition.next <= end,
            None => with_array_length(
                data@,
                encoding,
                format,
                at as int,
                end as int,
                little_endian,
            ) is None,
        },
{
    if encoding & ARRAY_FLAGS == CONSTANT_ARRAY_FLAG {
        if end - at < 2 {
            None
        } else {
            let length = read_u16(data, at, little_endian);
            Some(ReadDefinition { encoding, format, length, next: at + 2 })
        }
    } else {
        Some(ReadDefinition { encoding, format, length: 0, next: at })
    }
}

/// Reads the definition that starts at `at`.
fn read_definition(data: &[u8], at: usize, end: usize, little_endian: bool) -> (read: Option<
    ReadDefinition,
>)
    requires
        at <= end <= data.len(),
    ensures
        match read {
            Some(definition) => definition_at(data@, at as int, end as int, little_endian)
                == Some(definition.definition()) && at < definition.next <= end,
            None => definition_at(data@, at as int, end as int, little_endian) is None,
        },
{
    let stop = find_name_end(data, at, end);
    if end - stop < 2 {
        None
    } else {
        let encoding = data[stop + 1];
        if encoding & CHAIN_FLAG == 0 {
            read_array_length(data, encoding, 0, stop + 2, end, little_endian)
        } else if stop + 2 == end {
            None
        } else {
            let format = data[stop + 2];
            if format & CHAIN_FLAG == 0 {
                read_array_length(
                    data,
                    encoding & !CHAIN_FLAG,
                    format,
                    stop + 3,
                    end,
                    little_endian,
                )
            } else if end - (stop + 3) < 2 {
                None
            } else {
                read_array_length(
                    data,
                    encoding & !CHAIN_FLAG,
                    format & !CHAIN_FLAG,
                    stop + 5,
                    end,
                    little_endian,
                )
            }
        }
    }
}

/// Tests the field definitions between `start` and `end`.
fn check_definitions(data: &[u8], start: usize, end: usize, little_endian: bool) -> (sound: bool)
    requires
        start <= end <= data.len(),
        end - start <= METADATA_MAX,
    ensures
        sound == definitions_sound(
            data@,
            start as int,
            end as int,
            little_endian,
            Scan::start(),
        ),
{
    let mut at = start;
    let mut inside: usize = 0;
    let mut armed = false;
    let mut fields: usize = 0;
    while at < end
        invariant
            start <= at <= end <= data.len(),
            end - start <= METADATA_MAX,
            fields <= STRUCT_FIELDS_MAX,
            !armed ==> fields == 0,
            inside <= 255 * (at - start),
            definitions_sound(data@, start as int, end as int, little_endian, Scan::start())
                == definitions_sound(
                data@,
                at as int,
                end as int,
                little_endian,
                Scan { inside: inside as int, armed, fields: fields as int },
            ),
        decreases end - at,
    {
        match read_definition(data, at, end, little_endian) {
            None => {
                return true;
            },
            Some(definition) => {
                if definition.encoding == 0 {
                    return true;
                }
                let is_struct = definition.encoding & ENCODING_MASK == STRUCT_ENCODING;
                let array_flags = definition.encoding & ARRAY_FLAGS;
                if inside == 0 {
                    if array_flags == ARRAY_FLAGS {
                        return false;
                    }
                    if is_struct && array_flags != 0 && definition.format == 0 {
                        return false;
                    }
                }
                if is_struct && array_flags == CONSTANT_ARRAY_FLAG && definition.length >= 2 {
                    return false;
                }
                if is_struct && definition.encoding & VARIABLE_ARRAY_FLAG != 0 {
                    armed = true;
                }
                if inside > 0 {
                    inside = inside - 1;
                }
                if is_struct {
                    inside = inside + definition.format as usize;
                    if armed {
                        fields = fields + definition.format as usize;
                        if fields > STRUCT_FIELDS_MAX {
                            return false;
                        }
                    }
                }
                at = definition.next;
            },
        }
    }
    true
}

/// Tests whether the field definitions of an event follow the rules that
/// the enumerator relies on when the top-level fields of the event are
/// walked and named. `name_start` and `name_len` say where the event's
/// name lies in the payload.
pub fn event_is_sound(data: &[u8], name_start: usize, name_len: usize) -> (sound: bool)
    ensures
        sound == event_sound(
            EventLayout { data: data@, name_start: name_start as nat, name_len: name_len as nat },
        ),
{
    if name_start < EXTENSION_HEADER_SIZE || name_start > data.len() {
        return false;
    }
    let little_endian = data[0] & LITTLE_ENDIAN_FLAG != 0;
    let size = read_u16(data, name_start - EXTENSION_HEADER_SIZE, little_endian);
    let room = data.len() - name_start;
    if size as usize > room || name_len >= size as usize {
        return false;
    }
    let end = name_start + size as usize;
    let start = name_start + name_len + 1;
    check_definitions(data, start, end, little_endian)
}

} // verus!
