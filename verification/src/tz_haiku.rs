//! Haiku: the zone name in the flattened message of the `Time settings` file.
//!
//! The file `/boot/home/config/settings/Time settings` holds one flattened
//! message. It starts with a packed header of [`MESSAGE_HEADER_SIZE`] bytes:
//!
//! | offset | size | field                                   |
//! |--------|------|-----------------------------------------|
//! | 0      | 4    | format tag, `HMF1` or `1FMH`            |
//! | 4      | 36   | what, flags, target and reply addresses |
//! | 40     | 4    | number of fields                        |
//! | 44     | 4    | length of the hash table in bytes       |
//!
//! The tag `HMF1` says that every integer of the message is little-endian,
//! `1FMH` that it is big-endian. The hash table follows the header and is
//! skipped. Then come the fields, one after the other. A field is a packed
//! header of [`FIELD_HEADER_SIZE`] bytes, its name, and its data:
//!
//! | offset | size | field                          |
//! |--------|------|--------------------------------|
//! | 0      | 2    | flags                          |
//! | 2      | 2    | length of the name in bytes    |
//! | 4      | 4    | type code                      |
//! | 8      | 4    | number of items                |
//! | 12     | 4    | length of the data in bytes    |
//! | 16     | 8    | offset and link to next field  |
//!
//! The zone name is the field of type [`STRING_TYPE`] that is named
//! `timezone`. Its data is a length of four bytes and that many bytes of text,
//! the last of which is NUL.
//!
//! This little-endian message of 99 bytes names the zone `Europe/Berlin`:
//!
//! ```text
//! 48 4d 46 31  00 00 00 00  01 00 00 00  ff ff ff ff   HMF1, what, flags, target
//! ff ff ff ff  ff ff ff ff  ff ff ff ff  ff ff ff ff   specifier, area, reply port, target
//! ff ff ff ff  1b 00 00 00  01 00 00 00  00 00 00 00   reply team, data size, 1 field, no table
//! 05 00 09 00  52 54 53 43  01 00 00 00  12 00 00 00   flags, 9 bytes of name, RTSC, 1 item, 18
//! 00 00 00 00  ff ff ff ff                             offset, next field
//! 74 69 6d 65  7a 6f 6e 65  00                         timezone, NUL
//! 0e 00 00 00                                          14 bytes of text
//! 45 75 72 6f  70 65 2f 42  65 72 6c 69  6e 00         Europe/Berlin, NUL
//! ```

use vstd::prelude::*;
use vstd::slice::slice_subrange;
use vstd::utf8::*;

use crate::platform::Error;
use crate::timezone::Timezone;
use crate::{ok_or_failed, parsed, GetTimezoneError};

verus! {

/// The size of the message header.
pub const MESSAGE_HEADER_SIZE: usize = 48;

/// The size of a field header.
pub const FIELD_HEADER_SIZE: usize = 24;

/// The type code of a string field. In a little-endian message its four
/// bytes read `RTSC`.
pub const STRING_TYPE: u32 = 0x4353_5452;

/// The file that holds the settings.
pub const CONFIG_PATH: &'static str = "/boot/home/config/settings/Time settings";

/// The greatest length that the text of the zone name may declare, its
/// closing NUL included.
pub const NAME_BUFFER_SIZE: usize = 32;

/// The name of the field that holds the zone name, with its closing NUL.
pub open spec fn field_name() -> Seq<u8> {
    seq![0x74u8, 0x69, 0x6d, 0x65, 0x7a, 0x6f, 0x6e, 0x65, 0x00]
}

/// The integer of two bytes at `at`.
pub open spec fn u16_at(bytes: Seq<u8>, at: int, big_endian: bool) -> int {
    if big_endian {
        bytes[at] * 0x100 + bytes[at + 1]
    } else {
        bytes[at] + bytes[at + 1] * 0x100
    }
}

/// The integer of four bytes at `at`.
pub open spec fn u32_at(bytes: Seq<u8>, at: int, big_endian: bool) -> int {
    if big_endian {
        bytes[at] * 0x100_0000 + bytes[at + 1] * 0x1_0000 + bytes[at + 2] * 0x100 + bytes[at + 3]
    } else {
        bytes[at] + bytes[at + 1] * 0x100 + bytes[at + 2] * 0x1_0000 + bytes[at + 3] * 0x100_0000
    }
}

/// The byte order that the format tag of `config` announces: `Some(true)`
/// for big-endian, `Some(false)` for little-endian, `None` where the tag is
/// missing or is neither `HMF1` nor `1FMH`.
pub open spec fn byte_order(config: Seq<u8>) -> Option<bool> {
    if config.len() < 4 {
        None
    } else if config.subrange(0, 4) == seq![0x48u8, 0x4d, 0x46, 0x31] {
        Some(false)
    } else if config.subrange(0, 4) == seq![0x31u8, 0x46, 0x4d, 0x48] {
        Some(true)
    } else {
        None
    }
}

/// Whether the field whose header starts at `at` is the string field named
/// `timezone`.
pub open spec fn is_timezone_field(config: Seq<u8>, at: int, big_endian: bool) -> bool {
    &&& u32_at(config, at + 4, big_endian) == STRING_TYPE
    &&& u16_at(config, at + 2, big_endian) == field_name().len()
    &&& at + FIELD_HEADER_SIZE + field_name().len() <= config.len()
    &&& config.subrange(at + FIELD_HEADER_SIZE, at + FIELD_HEADER_SIZE + field_name().len())
        == field_name()
}

/// The zone that the string data at `at` names: a length between 1 and
/// [`NAME_BUFFER_SIZE`], then that many bytes, of which the last is NUL. The
/// name is what stands before that NUL, where that is between 1 and 31 bytes
/// of valid UTF-8.
pub open spec fn string_value(config: Seq<u8>, at: int, big_endian: bool) -> Option<Timezone> {
    if at + 4 > config.len() {
        None
    } else {
        let length = u32_at(config, at, big_endian);
        let text = config.subrange(at + 4, at + 4 + length);
        if length < 1 || length > NAME_BUFFER_SIZE || at + 4 + length > config.len() {
            None
        } else if text.last() != 0 {
            None
        } else {
            Timezone::encoded(text.drop_last())
        }
    }
}

/// The zone that is named among the `remaining` fields of which the first
/// starts at `at`. A field that is not the zone name is passed over by the
/// lengths that its header declares.
pub open spec fn scan_fields(config: Seq<u8>, at: int, remaining: nat, big_endian: bool) -> Option<
    Timezone,
>
    decreases remaining,
{
    if remaining == 0 || at + FIELD_HEADER_SIZE > config.len() {
        None
    } else if is_timezone_field(config, at, big_endian) {
        string_value(config, at + FIELD_HEADER_SIZE + field_name().len(), big_endian)
    } else {
        scan_fields(
            config,
            at + FIELD_HEADER_SIZE + u16_at(config, at + 2, big_endian) + u32_at(
                config,
                at + 12,
                big_endian,
            ),
            (remaining - 1) as nat,
            big_endian,
        )
    }
}

/// The zone that the message `config` names, or `None` where `config` is no
/// message or names none.
pub open spec fn zone_name(config: Seq<u8>) -> Option<Timezone> {
    match byte_order(config) {
        Some(big_endian) => if config.len() < MESSAGE_HEADER_SIZE {
            None
        } else {
            scan_fields(
                config,
                MESSAGE_HEADER_SIZE + u32_at(config, 44, big_endian),
                u32_at(config, 40, big_endian) as nat,
                big_endian,
            )
        },
        None => None,
    }
}

/// Reads the integer of two bytes at `at`.
fn read_u16(bytes: &[u8], at: usize, big_endian: bool) -> (r: u16)
    requires
        at + 2 <= bytes@.len(),
    ensures
        r == u16_at(bytes@, at as int, big_endian),
{
    let b0 = bytes[at] as u16;
    let b1 = bytes[at + 1] as u16;
    if big_endian {
        b0 * 0x100 + b1
    } else {
        b0 + b1 * 0x100
    }
}

/// Reads the integer of four bytes at `at`.
fn read_u32(bytes: &[u8], at: usize, big_endian: bool) -> (r: u32)
    requires
        at + 4 <= bytes@.len(),
    ensures
        r == u32_at(bytes@, at as int, big_endian),
{
    let b0 = bytes[at] as u32;
    let b1 = bytes[at + 1] as u32;
    let b2 = bytes[at + 2] as u32;
    let b3 = bytes[at + 3] as u32;
    if big_endian {
        b0 * 0x100_0000 + b1 * 0x1_0000 + b2 * 0x100 + b3
    } else {
        b0 + b1 * 0x100 + b2 * 0x1_0000 + b3 * 0x100_0000
    }
}

/// Whether the nine bytes at `at` are the name `timezone` and its NUL.
fn is_field_name(config: &[u8], at: usize) -> (r: bool)
    requires
        at + 9 <= config@.len(),
    ensures
        r == (config@.subrange(at as int, at + 9) == field_name()),
{
    let r = config[at] == 0x74 && config[at + 1] == 0x69 && config[at + 2] == 0x6d && config[at
        + 3] == 0x65 && config[at + 4] == 0x7a && config[at + 5] == 0x6f && config[at + 6] == 0x6e
        && config[at + 7] == 0x65 && config[at + 8] == 0x00;
    proof {
        let name = config@.subrange(at as int, at + 9);
        if r {
            assert(name =~= field_name());
        } else {
            assert(name[0] == config@[at + 0]);
            assert(name[1] == config@[at + 1]);
            assert(name[2] == config@[at + 2]);
            assert(name[3] == config@[at + 3]);
            assert(name[4] == config@[at + 4]);
            assert(name[5] == config@[at + 5]);
            assert(name[6] == config@[at + 6]);
            assert(name[7] == config@[at + 7]);
            assert(name[8] == config@[at + 8]);
        }
    }
    r
}

/// Reads the zone name from the string data at `at`.
fn read_string(config: &[u8], at: usize, big_endian: bool) -> (r: Result<
    Timezone,
    GetTimezoneError,
>)
    requires
        at <= config@.len(),
    ensures
        r == parsed(string_value(config@, at as int, big_endian)),
{
    let len = config.len();
    if len - at < 4 {
        return Err(GetTimezoneError::FailedParsingString);
    }
    let length = read_u32(config, at, big_endian);
    if length < 1 || length as usize > NAME_BUFFER_SIZE {
        return Err(GetTimezoneError::FailedParsingString);
    }
    let n = length as usize;
    if n > len - at - 4 {
        return Err(GetTimezoneError::FailedParsingString);
    }
    let text = slice_subrange(config, at + 4, at + 4 + n);
    if text[n - 1] != 0 {
        return Err(GetTimezoneError::FailedParsingString);
    }
    let name = slice_subrange(text, 0, n - 1);
    assert(name@ =~= text@.drop_last());
    ok_or_failed(Timezone::try_from_utf8(name))
}

/// Finds the zone name in the flattened message `config`.
///
/// Fails with [`GetTimezoneError::FailedParsingString`] where `config` does
/// not start with the format tag `HMF1` or `1FMH`, where a length in it leads
/// beyond its end, where none of its fields is the string field `timezone`,
/// and where the text of that field is not between 1 and 31 bytes of valid
/// UTF-8 with a closing NUL.
pub fn decode_config(config: &[u8]) -> (r: Result<Timezone, GetTimezoneError>)
    ensures
        r == parsed(zone_name(config@)),
        byte_order(config@) is None ==> r == Err::<Timezone, _>(
            GetTimezoneError::FailedParsingString,
        ),
{
    let len = config.len();
    if len < MESSAGE_HEADER_SIZE {
        return Err(GetTimezoneError::FailedParsingString);
    }
    let big_endian = if config[0] == 0x48 && config[1] == 0x4d && config[2] == 0x46 && config[3]
        == 0x31 {
        assert(config@.subrange(0, 4) =~= seq![0x48u8, 0x4d, 0x46, 0x31]);
        false
    } else if config[0] == 0x31 && config[1] == 0x46 && config[2] == 0x4d && config[3] == 0x48 {
        assert(config@.subrange(0, 4) =~= seq![0x31u8, 0x46, 0x4d, 0x48]);
        assert(config@.subrange(0, 4)[0] != 0x48);
        true
    } else {
        proof {
            let tag = config@.subrange(0, 4);
            assert(tag[0] == config@[0] && tag[1] == config@[1] && tag[2] == config@[2] && tag[3]
                == config@[3]);
        }
        return Err(GetTimezoneError::FailedParsingString);
    };
    let field_count = read_u32(config, 40, big_endian);
    let hash_table_size = read_u32(config, 44, big_endian) as usize;
    if hash_table_size > len - MESSAGE_HEADER_SIZE {
        return Err(GetTimezoneError::FailedParsingString);
    }
    let mut at = MESSAGE_HEADER_SIZE + hash_table_size;
    let mut remaining = field_count;
    while remaining > 0
        invariant
            at <= len == config@.len(),
            zone_name(config@) == scan_fields(config@, at as int, remaining as nat, big_endian),
        decreases remaining,
    {
        if len - at < FIELD_HEADER_SIZE {
            return Err(GetTimezoneError::FailedParsingString);
        }
        let name_length = read_u16(config, at + 2, big_endian) as usize;
        let type_code = read_u32(config, at + 4, big_endian);
        let data_size = read_u32(config, at + 12, big_endian) as usize;
        let name_at = at + FIELD_HEADER_SIZE;
        if type_code == STRING_TYPE && name_length == 9 && len - name_at >= 9 && is_field_name(
            config,
            name_at,
        ) {
            return read_string(config, name_at + 9, big_endian);
        }
        let room = len - name_at;
        if name_length > room || data_size > room - name_length {
            assert(scan_fields(
                config@,
                name_at + name_length + data_size,
                (remaining - 1) as nat,
                big_endian,
            ) is None);
            return Err(GetTimezoneError::FailedParsingString);
        }
        at = name_at + name_length + data_size;
        remaining -= 1;
    }
    Err(GetTimezoneError::FailedParsingString)
}

/// The zone that the settings file names, where `contents` is what the file
/// [`CONFIG_PATH`] holds, or the error of reading it.
pub open spec fn zone(contents: Result<&[u8], Error>) -> Result<Timezone, GetTimezoneError> {
    match contents {
        Ok(config) => parsed(zone_name(config@)),
        Err(e) => Err(GetTimezoneError::IoError(e)),
    }
}

/// The zone that the settings file names.
pub fn get_timezone_inner(contents: Result<&[u8], Error>) -> (r: Result<
    Timezone,
    GetTimezoneError,
>)
    ensures
        r == zone(contents),
{
    match contents {
        Ok(config) => decode_config(config),
        Err(e) => Err(GetTimezoneError::IoError(e)),
    }
}

/// The zone that the locale roster of the system names: the native lookup
/// wrote the name into `buf` and returned its length `len`, which is 0
/// where it found none.
pub fn get_timezone(buf: &[u8; NAME_BUFFER_SIZE], len: usize) -> (r: Option<Timezone>)
    ensures
        r == if len <= NAME_BUFFER_SIZE {
            Timezone::encoded(buf@.subrange(0, len as int))
        } else {
            None
        },
{
    // The name should not be empty, or excessively long.
    if len > NAME_BUFFER_SIZE {
        return None;
    }
    Timezone::try_from_utf8(slice_subrange(buf.as_slice(), 0, len))
}

/// The two bytes of `value`.
pub open spec fn u16_bytes(value: int, big_endian: bool) -> Seq<u8> {
    let low = (value % 0x100) as u8;
    let high = (value / 0x100 % 0x100) as u8;
    if big_endian {
        seq![high, low]
    } else {
        seq![low, high]
    }
}

/// The four bytes of `value`.
pub open spec fn u32_bytes(value: int, big_endian: bool) -> Seq<u8> {
    let b0 = (value % 0x100) as u8;
    let b1 = (value / 0x100 % 0x100) as u8;
    let b2 = (value / 0x1_0000 % 0x100) as u8;
    let b3 = (value / 0x100_0000 % 0x100) as u8;
    if big_endian {
        seq![b3, b2, b1, b0]
    } else {
        seq![b0, b1, b2, b3]
    }
}

/// The format tag of a message in the given byte order.
pub open spec fn format_tag(big_endian: bool) -> Seq<u8> {
    if big_endian {
        seq![0x31u8, 0x46, 0x4d, 0x48]
    } else {
        seq![0x48u8, 0x4d, 0x46, 0x31]
    }
}

/// A message header that announces `fields` fields, and the hash table
/// behind it.
pub open spec fn message_header(fields: int, hash_table: Seq<u8>, big_endian: bool) -> Seq<u8> {
    format_tag(big_endian) + Seq::new(36, |i: int| 0u8) + u32_bytes(fields, big_endian)
        + u32_bytes(hash_table.len() as int, big_endian) + hash_table
}

/// A field: its header, its name and its data.
pub open spec fn field(type_code: int, name: Seq<u8>, data: Seq<u8>, big_endian: bool) -> Seq<u8> {
    u16_bytes(0, big_endian) + u16_bytes(name.len() as int, big_endian) + u32_bytes(
        type_code,
        big_endian,
    ) + u32_bytes(1, big_endian) + u32_bytes(data.len() as int, big_endian) + Seq::new(
        8,
        |i: int| 0u8,
    ) + name + data
}

/// The data of a string field that holds `text`: the length of the text
/// with its NUL, the text, and the NUL.
pub open spec fn string_data(text: Seq<u8>, big_endian: bool) -> Seq<u8> {
    u32_bytes(text.len() as int + 1, big_endian) + text + seq![0u8]
}

/// The settings that name the zone `zone`: a message of one field.
pub open spec fn settings(zone: Seq<u8>, big_endian: bool) -> Seq<u8> {
    message_header(1, Seq::empty(), big_endian) + field(
        STRING_TYPE as int,
        field_name(),
        string_data(zone, big_endian),
        big_endian,
    )
}

/// The four bytes of a value are read back as the value.
proof fn lemma_u32_bytes(value: int, big_endian: bool)
    requires
        0 <= value < 0x1_0000_0000,
    ensures
        u32_bytes(value, big_endian).len() == 4,
        u32_at(u32_bytes(value, big_endian), 0, big_endian) == value,
{
}

/// The two bytes of a value are read back as the value.
proof fn lemma_u16_bytes(value: int, big_endian: bool)
    requires
        0 <= value < 0x1_0000,
    ensures
        u16_bytes(value, big_endian).len() == 2,
        u16_at(u16_bytes(value, big_endian), 0, big_endian) == value,
{
}

/// What is read at a place depends on the bytes at that place alone.
proof fn lemma_read_in_part(whole: Seq<u8>, from: int, to: int, at: int, big_endian: bool)
    requires
        0 <= from <= to <= whole.len(),
        0 <= at,
    ensures
        at + 4 <= to - from ==> u32_at(whole, from + at, big_endian) == u32_at(
            whole.subrange(from, to),
            at,
            big_endian,
        ),
        at + 2 <= to - from ==> u16_at(whole, from + at, big_endian) == u16_at(
            whole.subrange(from, to),
            at,
            big_endian,
        ),
{
    let part = whole.subrange(from, to);
    if at + 2 <= to - from {
        assert(part[at] == whole[from + at] && part[at + 1] == whole[from + at + 1]);
    }
    if at + 4 <= to - from {
        assert(part[at + 2] == whole[from + at + 2] && part[at + 3] == whole[from + at + 3]);
    }
}

/// Where the parts of a message header stand.
proof fn lemma_message_header(fields: int, big_endian: bool)
    requires
        0 <= fields < 0x1_0000_0000,
    ensures
        ({
            let header = message_header(fields, Seq::empty(), big_endian);
            &&& header.len() == MESSAGE_HEADER_SIZE
            &&& header.subrange(0, 4) == format_tag(big_endian)
            &&& u32_at(header, 40, big_endian) == fields
            &&& u32_at(header, 44, big_endian) == 0
        }),
{
    let header = message_header(fields, Seq::empty(), big_endian);
    lemma_u32_bytes(fields, big_endian);
    lemma_u32_bytes(0, big_endian);
    assert(header.len() == 48);
    assert(header.subrange(0, 4) =~= format_tag(big_endian));
    assert(header.subrange(40, 44) =~= u32_bytes(fields, big_endian));
    assert(header.subrange(44, 48) =~= u32_bytes(0, big_endian));
    lemma_read_in_part(header, 40, 44, 0, big_endian);
    lemma_read_in_part(header, 44, 48, 0, big_endian);
}

/// Where the parts of a field stand.
proof fn lemma_field(type_code: int, name: Seq<u8>, data: Seq<u8>, big_endian: bool)
    requires
        0 <= type_code < 0x1_0000_0000,
        name.len() < 0x1_0000,
        data.len() < 0x1_0000_0000,
    ensures
        ({
            let field = field(type_code, name, data, big_endian);
            &&& field.len() == FIELD_HEADER_SIZE + name.len() + data.len()
            &&& u16_at(field, 2, big_endian) == name.len()
            &&& u32_at(field, 4, big_endian) == type_code
            &&& u32_at(field, 12, big_endian) == data.len()
            &&& field.subrange(FIELD_HEADER_SIZE as int, FIELD_HEADER_SIZE + name.len()) == name
            &&& field.subrange(FIELD_HEADER_SIZE + name.len(), field.len() as int) == data
        }),
{
    let field = field(type_code, name, data, big_endian);
    lemma_u16_bytes(0, big_endian);
    lemma_u16_bytes(name.len() as int, big_endian);
    lemma_u32_bytes(type_code, big_endian);
    lemma_u32_bytes(1, big_endian);
    lemma_u32_bytes(data.len() as int, big_endian);
    assert(field.len() == 24 + name.len() + data.len());
    assert(field.subrange(2, 4) =~= u16_bytes(name.len() as int, big_endian));
    assert(field.subrange(4, 8) =~= u32_bytes(type_code, big_endian));
    assert(field.subrange(12, 16) =~= u32_bytes(data.len() as int, big_endian));
    lemma_read_in_part(field, 2, 4, 0, big_endian);
    lemma_read_in_part(field, 4, 8, 0, big_endian);
    lemma_read_in_part(field, 12, 16, 0, big_endian);
    let m = name.len() as int;
    assert(field.subrange(24, 24 + m) =~= name);
    assert(field.subrange(24 + m, field.len() as int) =~= data);
}

/// Where the parts of the data of a string field stand.
proof fn lemma_string_data(text: Seq<u8>, big_endian: bool)
    requires
        text.len() < 0x1_0000,
    ensures
        ({
            let data = string_data(text, big_endian);
            &&& data.len() == text.len() + 5
            &&& u32_at(data, 0, big_endian) == text.len() + 1
            &&& data.subrange(4, data.len() as int) == text + seq![0u8]
        }),
{
    let data = string_data(text, big_endian);
    lemma_u32_bytes(text.len() as int + 1, big_endian);
    assert(data.subrange(0, 4) =~= u32_bytes(text.len() as int + 1, big_endian));
    lemma_read_in_part(data, 0, 4, 0, big_endian);
    assert(data.subrange(4, data.len() as int) =~= text + seq![0u8]);
}

/// Settings written for a zone name the zone of that name, in either byte
/// order, and none where no [`Timezone`] can hold the name.
pub proof fn lemma_settings(zone: Seq<u8>, big_endian: bool)
    requires
        zone.len() < 0x1_0000,
    ensures
        zone_name(settings(zone, big_endian)) == Timezone::encoded(zone),
{
    let header = message_header(1, Seq::empty(), big_endian);
    let data = string_data(zone, big_endian);
    let field = field(STRING_TYPE as int, field_name(), data, big_endian);
    let config = settings(zone, big_endian);
    let n = zone.len() as int;
    lemma_message_header(1, big_endian);
    lemma_string_data(zone, big_endian);
    lemma_field(STRING_TYPE as int, field_name(), data, big_endian);
    assert(config == header + field);
    assert(config.len() == 48 + 24 + 9 + n + 5);
    assert(config.subrange(0, 48) =~= header);
    assert(config.subrange(48, config.len() as int) =~= field);
    assert(byte_order(config) == Some(big_endian)) by {
        assert(config.subrange(0, 4) =~= header.subrange(0, 4));
        assert(seq![0x31u8, 0x46, 0x4d, 0x48][0] != seq![0x48u8, 0x4d, 0x46, 0x31][0]);
    }
    lemma_read_in_part(config, 0, 48, 40, big_endian);
    lemma_read_in_part(config, 0, 48, 44, big_endian);
    lemma_read_in_part(config, 48, config.len() as int, 2, big_endian);
    lemma_read_in_part(config, 48, config.len() as int, 4, big_endian);
    lemma_read_in_part(config, 48, config.len() as int, 12, big_endian);
    assert(config.subrange(72, 81) =~= field.subrange(24, 33));
    assert(is_timezone_field(config, 48, big_endian));
    assert(config.subrange(81, config.len() as int) =~= data);
    lemma_read_in_part(config, 81, config.len() as int, 0, big_endian);
    assert(u32_at(config, 81, big_endian) == n + 1);
    let text = config.subrange(85, 85 + n + 1);
    assert(text =~= data.subrange(4, data.len() as int));
    assert(text.drop_last() =~= zone);
    assert(text.last() == 0);
    assert(scan_fields(config, 48, 1, big_endian) == string_value(config, 81, big_endian));
}

/// A message whose format tag is neither `HMF1` nor `1FMH` names no zone.
pub proof fn lemma_unknown_tag(config: Seq<u8>)
    requires
        byte_order(config) is None,
    ensures
        zone_name(config) is None,
{
}

} // verus!
