use iana_time_zone::platform::Error;
use iana_time_zone::tz_haiku::{
    decode_config, get_timezone, get_timezone_inner, FIELD_HEADER_SIZE, MESSAGE_HEADER_SIZE,
    NAME_BUFFER_SIZE, STRING_TYPE,
};
use iana_time_zone::GetTimezoneError;

fn put_u16(out: &mut Vec<u8>, value: u16, big_endian: bool) {
    if big_endian {
        out.extend_from_slice(&value.to_be_bytes());
    } else {
        out.extend_from_slice(&value.to_le_bytes());
    }
}

fn put_u32(out: &mut Vec<u8>, value: u32, big_endian: bool) {
    if big_endian {
        out.extend_from_slice(&value.to_be_bytes());
    } else {
        out.extend_from_slice(&value.to_le_bytes());
    }
}

fn header(tag: &[u8; 4], fields: u32, hash_table: &[u8], big_endian: bool) -> Vec<u8> {
    let mut out = tag.to_vec();
    out.extend_from_slice(&[0u8; 36]);
    put_u32(&mut out, fields, big_endian);
    put_u32(&mut out, hash_table.len() as u32, big_endian);
    assert_eq!(out.len(), MESSAGE_HEADER_SIZE);
    out.extend_from_slice(hash_table);
    out
}

fn field(type_code: u32, name: &[u8], data: &[u8], big_endian: bool) -> Vec<u8> {
    let mut out = Vec::new();
    put_u16(&mut out, 0x0005, big_endian);
    put_u16(&mut out, name.len() as u16, big_endian);
    put_u32(&mut out, type_code, big_endian);
    put_u32(&mut out, 1, big_endian);
    put_u32(&mut out, data.len() as u32, big_endian);
    put_u32(&mut out, 0, big_endian);
    put_u32(&mut out, 0xffff_ffff, big_endian);
    assert_eq!(out.len(), FIELD_HEADER_SIZE);
    out.extend_from_slice(name);
    out.extend_from_slice(data);
    out
}

fn string(text: &[u8], big_endian: bool) -> Vec<u8> {
    let mut out = Vec::new();
    put_u32(&mut out, text.len() as u32, big_endian);
    out.extend_from_slice(text);
    out
}

fn message(big_endian: bool, fields: &[Vec<u8>]) -> Vec<u8> {
    let tag = if big_endian { b"1FMH" } else { b"HMF1" };
    let mut out = header(tag, fields.len() as u32, &[0xff; 20], big_endian);
    for f in fields {
        out.extend_from_slice(f);
    }
    out
}

const FAILED: Result<iana_time_zone::Timezone, GetTimezoneError> =
    Err(GetTimezoneError::FailedParsingString);

#[test]
fn test_fallback_on_non_haiku_platforms() {
    // Where there is no locale roster the native lookup writes nothing and
    // returns 0.
    let buf = [0u8; 32];
    let len = 0;
    assert!(get_timezone(&buf, len).is_none());
}

#[test]
fn the_native_lookup_names_the_zone() {
    let mut buf = [0u8; NAME_BUFFER_SIZE];
    buf[..13].copy_from_slice(b"Europe/Berlin");
    assert_eq!(get_timezone(&buf, 13).unwrap().as_str(), "Europe/Berlin");
    assert_eq!(get_timezone(&buf, 6).unwrap().as_str(), "Europe");
    // the bytes behind the name are NUL, and count where the length says so
    assert_eq!(get_timezone(&buf, 14).unwrap().as_str(), "Europe/Berlin\0");
    assert!(get_timezone(&buf, 0).is_none());
    assert!(get_timezone(&buf, 32).is_none());
    assert!(get_timezone(&buf, 33).is_none());
    assert!(get_timezone(&buf, usize::MAX).is_none());
    assert!(get_timezone(&buf, 31).is_some());
    buf[3] = 0xff;
    assert!(get_timezone(&buf, 13).is_none());
    assert_eq!(get_timezone(&buf, 3).unwrap().as_str(), "Eur");
}

#[test]
fn the_little_endian_sample_names_europe_berlin() {
    let config: [u8; 99] = [
        // message header
        b'H', b'M', b'F', b'1',     // format
        0x00, 0x00, 0x00, 0x00,     // what
        0x01, 0x00, 0x00, 0x00,     // flags
        0xff, 0xff, 0xff, 0xff,     // target
        0xff, 0xff, 0xff, 0xff,     // current specifier
        0xff, 0xff, 0xff, 0xff,     // message area
        0xff, 0xff, 0xff, 0xff,     // reply port
        0xff, 0xff, 0xff, 0xff,     // reply target
        0xff, 0xff, 0xff, 0xff,     // reply team
        0x1b, 0x00, 0x00, 0x00,     // data size
        0x01, 0x00, 0x00, 0x00,     // field count: 1
        0x00, 0x00, 0x00, 0x00,     // hash table: 0 bytes
        // field header
        0x05, 0x00,                 // flags
        0x09, 0x00,                 // name length: 9
        b'R', b'T', b'S', b'C',     // type
        0x01, 0x00, 0x00, 0x00,     // count
        0x12, 0x00, 0x00, 0x00,     // data size: 18
        0x00, 0x00, 0x00, 0x00,     // offset
        0xff, 0xff, 0xff, 0xff,     // next field
        // name
        b't', b'i', b'm', b'e', b'z', b'o', b'n', b'e', 0x00,
        // data
        0x0e, 0x00, 0x00, 0x00,     // length: 14
        b'E', b'u', b'r', b'o', b'p', b'e', b'/', b'B', b'e', b'r', b'l', b'i', b'n', 0x00,
    ];
    assert_eq!(decode_config(&config).unwrap().as_str(), "Europe/Berlin");
    assert_eq!(get_timezone_inner(Ok(&config)).unwrap().as_str(), "Europe/Berlin");
}

#[test]
fn the_builder_of_these_tests_writes_the_sample() {
    let built = {
        let mut out = header(b"HMF1", 1, &[], false);
        out.extend_from_slice(&field(STRING_TYPE, b"timezone\0", &string(b"Europe/Berlin\0", false), false));
        out
    };
    assert_eq!(built.len(), 99);
    assert_eq!(&built[52..56], b"RTSC");
    assert_eq!(decode_config(&built).unwrap().as_str(), "Europe/Berlin");
}

#[test]
fn a_big_endian_message_is_read_too() {
    let config = message(true, &[field(STRING_TYPE, b"timezone\0", &string(b"Asia/Tokyo\0", true), true)]);
    assert_eq!(&config[..4], b"1FMH");
    assert_eq!(&config[MESSAGE_HEADER_SIZE + 20 + 4..][..4], b"CSTR");
    assert_eq!(decode_config(&config).unwrap().as_str(), "Asia/Tokyo");
}

#[test]
fn an_unknown_format_tag_is_refused() {
    let good = message(false, &[field(STRING_TYPE, b"timezone\0", &string(b"Asia/Tokyo\0", false), false)]);
    assert!(decode_config(&good).is_ok());
    for tag in [b"HMF2", b"FOB1", b"1FMh", b"\0\0\0\0", b"hmf1", b"HFM1"] {
        let mut bad = good.clone();
        bad[..4].copy_from_slice(tag);
        assert_eq!(decode_config(&bad), FAILED);
    }
    // the tag decides the byte order: with the other one the lengths lead
    // beyond the end
    let mut swapped = good.clone();
    swapped[..4].copy_from_slice(b"1FMH");
    assert_eq!(decode_config(&swapped), FAILED);
}

#[test]
fn a_message_cut_short_is_refused() {
    let good = message(false, &[field(STRING_TYPE, b"timezone\0", &string(b"Asia/Tokyo\0", false), false)]);
    for len in 0..good.len() {
        assert_eq!(decode_config(&good[..len]), FAILED, "{}", len);
    }
    assert!(decode_config(&good).is_ok());
    // what follows the name is not read
    let mut longer = good.clone();
    longer.extend_from_slice(b"anything");
    assert_eq!(decode_config(&longer).unwrap().as_str(), "Asia/Tokyo");
}

#[test]
fn the_fields_before_the_zone_name_are_passed_over() {
    for big_endian in [false, true] {
        let config = message(
            big_endian,
            &[
                field(0x4c4f_4e47, b"offset\0", &[1, 2, 3, 4], big_endian),
                // a string of another name
                field(STRING_TYPE, b"time zone\0", &string(b"Europe/Paris\0", big_endian), big_endian),
                // the name, but no string
                field(0x4c4f_4e47, b"timezone\0", &[0, 0, 0, 0], big_endian),
                // nine bytes of name, but other ones
                field(STRING_TYPE, b"timezona\0", &string(b"Europe/Rome\0", big_endian), big_endian),
                field(STRING_TYPE, b"", b"", big_endian),
                field(STRING_TYPE, b"timezone\0", &string(b"Europe/Berlin\0", big_endian), big_endian),
                field(STRING_TYPE, b"timezone\0", &string(b"Europe/Oslo\0", big_endian), big_endian),
            ],
        );
        assert_eq!(decode_config(&config).unwrap().as_str(), "Europe/Berlin");
    }
}

#[test]
fn a_message_without_the_zone_name_is_refused() {
    assert_eq!(decode_config(&message(false, &[])), FAILED);
    let config = message(false, &[field(0x4c4f_4e47, b"offset\0", &[1, 2, 3, 4], false)]);
    assert_eq!(decode_config(&config), FAILED);
    // the field is there, but the header counts one field only
    let mut config = header(b"HMF1", 1, &[], false);
    config.extend_from_slice(&field(0x4c4f_4e47, b"offset\0", &[1, 2, 3, 4], false));
    config.extend_from_slice(&field(STRING_TYPE, b"timezone\0", &string(b"Europe/Berlin\0", false), false));
    assert_eq!(decode_config(&config), FAILED);
    config[40] = 2;
    assert_eq!(decode_config(&config).unwrap().as_str(), "Europe/Berlin");
}

#[test]
fn a_length_that_leads_beyond_the_end_is_refused() {
    let zone = field(STRING_TYPE, b"timezone\0", &string(b"Europe/Berlin\0", false), false);
    // the hash table
    let mut config = header(b"HMF1", 1, &[], false);
    config[44..48].copy_from_slice(&0xffff_ffffu32.to_le_bytes());
    config.extend_from_slice(&zone);
    assert_eq!(decode_config(&config), FAILED);
    // the data of a field that is passed over
    let mut other = field(0x4c4f_4e47, b"offset\0", &[1, 2, 3, 4], false);
    other[12..16].copy_from_slice(&0xffff_ffffu32.to_le_bytes());
    let config = message(false, &[other.clone(), zone.clone()]);
    assert_eq!(decode_config(&config), FAILED);
    // its name
    let mut other = field(0x4c4f_4e47, b"offset\0", &[1, 2, 3, 4], false);
    other[2..4].copy_from_slice(&0xffffu16.to_le_bytes());
    let config = message(false, &[other, zone.clone()]);
    assert_eq!(decode_config(&config), FAILED);
    // the number of fields may promise more than there is
    let mut config = message(false, &[zone]);
    config[40..44].copy_from_slice(&0xffff_ffffu32.to_le_bytes());
    assert_eq!(decode_config(&config).unwrap().as_str(), "Europe/Berlin");
}

#[test]
fn the_text_of_the_zone_name_is_checked() {
    let with = |data: Vec<u8>| message(false, &[field(STRING_TYPE, b"timezone\0", &data, false)]);
    assert_eq!(decode_config(&with(string(b"Z\0", false))).unwrap().as_str(), "Z");
    // no length
    assert_eq!(decode_config(&with(vec![14, 0, 0])), FAILED);
    // a length of 0
    assert_eq!(decode_config(&with(string(b"", false))), FAILED);
    // no text but the NUL
    assert_eq!(decode_config(&with(string(b"\0", false))), FAILED);
    // no NUL at the end
    assert_eq!(decode_config(&with(string(b"Europe/Berlin", false))), FAILED);
    assert_eq!(decode_config(&with(string(b"Europe/Berlin\0 ", false))), FAILED);
    // not UTF-8
    assert_eq!(decode_config(&with(string(b"Europe/\xffBerlin\0", false))), FAILED);
    // 32 bytes with the NUL are the most
    let mut text = vec![b'a'; 31];
    text.push(0);
    assert_eq!(decode_config(&with(string(&text, false))).unwrap().as_str(), "a".repeat(31));
    let mut text = vec![b'a'; 32];
    text.push(0);
    assert_eq!(decode_config(&with(string(&text, false))), FAILED);
    // fewer bytes than the length says
    let mut data = string(b"Europe/Berlin\0", false);
    data.pop();
    assert_eq!(decode_config(&with(data)), FAILED);
    // a length that does not fit in 32 bits of address
    let mut data = string(b"Europe/Berlin\0", false);
    data[..4].copy_from_slice(&0xffff_fff0u32.to_le_bytes());
    assert_eq!(decode_config(&with(data)), FAILED);
}

#[test]
fn an_error_of_reading_the_settings_is_passed_on() {
    assert_eq!(get_timezone_inner(Err(Error::Os(2))), Err(GetTimezoneError::IoError(Error::Os(2))));
    assert_eq!(get_timezone_inner(Err(Error::Other)), Err(GetTimezoneError::IoError(Error::Other)));
    assert_eq!(get_timezone_inner(Ok(b"")), FAILED);
}
