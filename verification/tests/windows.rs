use iana_time_zone::platform::Error;
use iana_time_zone::tz_windows::{
    from_icu, name_from_field, region_hint, terminated, text_of, windows_id,
    DynamicTimeZoneInformation,
    TIME_ZONE_ID_DAYLIGHT, TIME_ZONE_ID_INVALID, TIME_ZONE_ID_STANDARD, TIME_ZONE_ID_UNKNOWN,
};
use iana_time_zone::windows::hstring::{
    h, w, Hstring, HstringHeader, HSTRING_REFERENCE_FLAG, UNKNOWN_FLAG_10,
};
use iana_time_zone::windows::inspectable::Inspectable;
use iana_time_zone::windows::tz_on_calendar::{guid, TzOnCalendar};
use iana_time_zone::windows::winapi::{ro_activate_instance, windows_get_string_raw_buffer};
use iana_time_zone::windows::{Answer, Step, CLASS_NAME, CO_E_NOTINITIALIZED, E_FAIL, HRESULT};
use iana_time_zone::{tz_windows, windows, GetTimezoneError, Timezone};

const FAILED: Result<Timezone, GetTimezoneError> = Err(GetTimezoneError::FailedParsingString);
const OTHER: Result<Timezone, GetTimezoneError> = Err(GetTimezoneError::IoError(Error::Other));

fn wide<const N: usize>(text: &str) -> [u16; N] {
    let mut field = [0u16; N];
    for (at, unit) in text.encode_utf16().enumerate() {
        field[at] = unit;
    }
    field
}

fn info(standard: &str, daylight: &str, key: &str) -> DynamicTimeZoneInformation {
    DynamicTimeZoneInformation {
        standard_name: wide(standard),
        daylight_name: wide(daylight),
        time_zone_key_name: wide(key),
    }
}

#[test]
fn the_status_values_are_those_of_the_system() {
    assert_eq!(TIME_ZONE_ID_UNKNOWN, 0);
    assert_eq!(TIME_ZONE_ID_STANDARD, 1);
    assert_eq!(TIME_ZONE_ID_DAYLIGHT, 2);
    assert_eq!(TIME_ZONE_ID_INVALID, u32::MAX);
    assert_eq!(CO_E_NOTINITIALIZED, 0x800401F0_u32 as i32);
    assert_eq!(E_FAIL, 0x80004005_u32 as i32);
    assert_eq!(CLASS_NAME, "Windows.Globalization.Calendar");
}

#[test]
fn terminated_ends_at_the_first_nul() {
    assert_eq!(terminated(&[0x41, 0x42, 0, 0x43, 0]), Some(&[0x41u16, 0x42][..]));
    assert_eq!(terminated(&[0, 0x41]), Some(&[][..]));
    assert_eq!(terminated(&[0x41, 0]), Some(&[0x41u16][..]));
    assert_eq!(terminated(&[0x41, 0x42]), None);
    assert_eq!(terminated(&[]), None);
}

#[test]
fn the_text_of_a_field_is_well_formed() {
    assert_eq!(text_of(&[0x41, 0x42, 0, 0x43]), Ok(&[0x41u16, 0x42][..]));
    assert_eq!(text_of(&[0xd83d, 0xde00, 0]), Ok(&[0xd83du16, 0xde00][..]));
    assert_eq!(text_of(&[0]), Ok(&[][..]));
    assert_eq!(text_of(&[0x41, 0x42]), Err(GetTimezoneError::FailedParsingString));
    assert_eq!(text_of(&[]), Err(GetTimezoneError::FailedParsingString));
    assert_eq!(text_of(&[0xd83d, 0]), Err(GetTimezoneError::IoError(Error::Other)));
    assert_eq!(text_of(&[0xde00, 0xd83d, 0]), Err(GetTimezoneError::IoError(Error::Other)));
}

#[test]
fn a_field_holds_the_name_before_its_nul() {
    assert_eq!(name_from_field(&wide::<32>("UTC")).unwrap().as_str(), "UTC");
    // no NUL
    assert_eq!(name_from_field(&[0x41; 32]), FAILED);
    // nothing before the NUL
    assert_eq!(name_from_field(&[0; 32]), FAILED);
    // more than 31 bytes of UTF-8
    assert_eq!(name_from_field(&wide::<128>(&"a".repeat(32))), FAILED);
    assert_eq!(name_from_field(&wide::<128>(&"a".repeat(31))).unwrap().as_str(), "a".repeat(31));
    // a surrogate without its partner
    assert_eq!(name_from_field(&[0x41, 0xd800, 0x41, 0]), OTHER);
    assert_eq!(name_from_field(&[0xdc00, 0]), OTHER);
    // and one behind the bound
    let mut field = [0x41u16; 128];
    field[100] = 0xd800;
    field[127] = 0;
    assert_eq!(name_from_field(&field), OTHER);
    // what stands behind the NUL does not count
    assert_eq!(name_from_field(&[0x41, 0, 0xd800, 0]).unwrap().as_str(), "A");
}

#[test]
fn the_status_selects_the_field() {
    let info = info("W. Europe Standard Time", "W. Europe Summer Time", "W. Europe Time");
    assert_eq!(
        tz_windows::get_timezone_inner(TIME_ZONE_ID_UNKNOWN, &info, 0).unwrap().as_str(),
        "W. Europe Time"
    );
    assert_eq!(
        tz_windows::get_timezone_inner(TIME_ZONE_ID_STANDARD, &info, 0).unwrap().as_str(),
        "W. Europe Standard Time"
    );
    assert_eq!(
        tz_windows::get_timezone_inner(TIME_ZONE_ID_DAYLIGHT, &info, 0).unwrap().as_str(),
        "W. Europe Summer Time"
    );
}

#[test]
fn an_invalid_status_carries_the_last_error() {
    let info = info("Standard", "Daylight", "Key");
    assert_eq!(
        tz_windows::get_timezone_inner(TIME_ZONE_ID_INVALID, &info, 87),
        Err(GetTimezoneError::IoError(Error::Os(87)))
    );
    assert_eq!(tz_windows::get_timezone_inner(3, &info, 87), OTHER);
    assert_eq!(tz_windows::get_timezone_inner(0xFFFF_FFFE, &info, 87), OTHER);
    assert_eq!(windows_id(TIME_ZONE_ID_INVALID, &info, 87), Err(GetTimezoneError::IoError(Error::Os(87))));
    assert_eq!(windows_id(3, &info, 87), Err(GetTimezoneError::IoError(Error::Other)));
}

#[test]
fn a_field_that_holds_no_name_fails_the_resolution() {
    let mut info = info("Standard", "Daylight", "Key");
    info.standard_name = [0x41; 32];
    info.daylight_name[2] = 0xdfff;
    assert_eq!(tz_windows::get_timezone_inner(TIME_ZONE_ID_STANDARD, &info, 0), FAILED);
    assert_eq!(tz_windows::get_timezone_inner(TIME_ZONE_ID_DAYLIGHT, &info, 0), OTHER);
    assert_eq!(tz_windows::get_timezone_inner(TIME_ZONE_ID_UNKNOWN, &info, 0).unwrap().as_str(), "Key");
}

#[test]
fn the_registry_key_is_handed_to_icu_under_every_valid_status() {
    let mut info = info("Standard", "Daylight", "W. Europe Standard Time");
    let key: Vec<u16> = "W. Europe Standard Time".encode_utf16().collect();
    for status in [TIME_ZONE_ID_UNKNOWN, TIME_ZONE_ID_STANDARD, TIME_ZONE_ID_DAYLIGHT] {
        assert_eq!(windows_id(status, &info, 0), Ok(&key[..]));
    }
    // the key may be longer than a zone name
    info.time_zone_key_name = wide(&"k".repeat(100));
    assert_eq!(windows_id(TIME_ZONE_ID_STANDARD, &info, 0).unwrap().len(), 100);
    info.time_zone_key_name = [0x41; 128];
    assert_eq!(windows_id(TIME_ZONE_ID_STANDARD, &info, 0), Err(GetTimezoneError::FailedParsingString));
    info.time_zone_key_name[5] = 0xd800;
    info.time_zone_key_name[9] = 0;
    assert_eq!(windows_id(TIME_ZONE_ID_STANDARD, &info, 0), Err(GetTimezoneError::IoError(Error::Other)));
}

#[test]
fn the_region_is_what_stands_before_the_nul() {
    let buffer: [u16; 128] = wide("DE");
    assert_eq!(region_hint(3, &buffer, 0), Ok(&[0x44u16, 0x45][..]));
    assert_eq!(region_hint(0, &buffer, 122), Err(GetTimezoneError::IoError(Error::Os(122))));
    assert_eq!(region_hint(-1, &buffer, 0), Err(GetTimezoneError::FailedParsingString));
    assert_eq!(region_hint(129, &buffer, 0), Err(GetTimezoneError::FailedParsingString));
    // the count does not reach the NUL
    assert_eq!(region_hint(2, &buffer, 0), Err(GetTimezoneError::FailedParsingString));
    assert_eq!(region_hint(128, &buffer, 0), Ok(&[0x44u16, 0x45][..]));
    assert_eq!(region_hint(2, &[0xd800, 0], 0), Err(GetTimezoneError::IoError(Error::Other)));
    assert_eq!(region_hint(1, &[0], 0), Ok(&[][..]));
}

#[test]
fn the_answer_of_icu_is_the_name() {
    let buffer: [u16; 128] = wide("Europe/Berlin");
    assert_eq!(from_icu(0, 13, &buffer).unwrap().as_str(), "Europe/Berlin");
    assert_eq!(from_icu(0, 6, &buffer).unwrap().as_str(), "Europe");
    // no zone for that key
    assert_eq!(from_icu(0, 0, &buffer), FAILED);
    assert_eq!(from_icu(0, -1, &buffer), FAILED);
    assert_eq!(from_icu(0, 129, &buffer), FAILED);
    assert_eq!(from_icu(0, i32::MAX, &buffer), FAILED);
    assert_eq!(from_icu(0, 32, &[0x61; 128]), FAILED);
    assert_eq!(from_icu(0, 31, &[0x61; 128]).unwrap().as_str(), "a".repeat(31));
    assert_eq!(from_icu(0, 2, &[0x61, 0xd800]), FAILED);
    // an error, and a warning too
    assert_eq!(from_icu(15, 13, &buffer), Err(GetTimezoneError::IoError(Error::Os(15))));
    assert_eq!(from_icu(1, 0, &buffer), Err(GetTimezoneError::IoError(Error::Os(1))));
    assert_eq!(from_icu(-124, 13, &buffer), Err(GetTimezoneError::IoError(Error::Os(-124))));
}

#[test]
fn a_negative_status_is_a_failure() {
    assert_eq!(HRESULT(0).into_result(), Ok(()));
    assert_eq!(HRESULT(1).into_result(), Ok(()));
    assert_eq!(HRESULT(i32::MAX).into_result(), Ok(()));
    assert_eq!(HRESULT(-1).into_result(), Err(HRESULT(-1)));
    assert_eq!(HRESULT(E_FAIL).into_result(), Err(HRESULT(E_FAIL)));
    assert_eq!(HRESULT(i32::MIN).into_result(), Err(HRESULT(i32::MIN)));
    assert_eq!(GetTimezoneError::from(HRESULT(E_FAIL)), GetTimezoneError::IoError(Error::Os(E_FAIL)));
}

#[test]
fn an_object_is_there_after_a_success_with_an_address() {
    assert_eq!(ro_activate_instance(HRESULT(0), 0x1000), Ok(0x1000));
    assert_eq!(ro_activate_instance(HRESULT(0), 0), Err(HRESULT(E_FAIL)));
    assert_eq!(ro_activate_instance(HRESULT(-5), 0), Err(HRESULT(-5)));
    assert_eq!(ro_activate_instance(HRESULT(-5), 0x1000), Err(HRESULT(-5)));
    assert_eq!(Inspectable::activate(HRESULT(0), 0x1000).unwrap().as_ptr(), 0x1000);
    assert_eq!(Inspectable::activate(HRESULT(1), usize::MAX).unwrap().as_ptr(), usize::MAX);
    assert_eq!(Inspectable::activate(HRESULT(0), 0), Err(HRESULT(E_FAIL)));
    assert_eq!(
        Inspectable::activate(HRESULT(CO_E_NOTINITIALIZED), 0),
        Err(HRESULT(CO_E_NOTINITIALIZED))
    );
    assert_eq!(TzOnCalendar::query(HRESULT(0), 0x2000).unwrap().as_ptr(), 0x2000);
    assert_eq!(TzOnCalendar::query(HRESULT(0), 0), Err(HRESULT(E_FAIL)));
    assert_eq!(TzOnCalendar::query(HRESULT(-7), 0x2000), Err(HRESULT(-7)));
    assert_eq!(Hstring::from_tz_on_calendar(HRESULT(0), 0x3000).unwrap().as_ptr(), 0x3000);
    // a null string is a failure that carries the status, a success too
    assert_eq!(Hstring::from_tz_on_calendar(HRESULT(0), 0), Err(HRESULT(0)));
    assert_eq!(Hstring::from_tz_on_calendar(HRESULT(1), 0), Err(HRESULT(1)));
    assert_eq!(Hstring::from_tz_on_calendar(HRESULT(-7), 0x3000), Err(HRESULT(-7)));
}

#[test]
fn the_raw_buffer_has_the_length_that_was_stored() {
    assert_eq!(windows_get_string_raw_buffer(false, 13), Ok(13));
    assert_eq!(windows_get_string_raw_buffer(false, 0), Ok(0));
    assert_eq!(windows_get_string_raw_buffer(true, 13), Err(()));
}

#[test]
fn the_interface_is_that_of_the_time_zone_on_a_calendar() {
    let guid = guid();
    assert_eq!(guid.data1, 0xbb3c25e5);
    assert_eq!(guid.data2, 0x46cf);
    assert_eq!(guid.data3, 0x4317);
    assert_eq!(guid.data4, [0xa3, 0xf5, 0x02, 0x62, 0x1a, 0xd5, 0x44, 0x78]);
}

#[test]
fn a_wide_literal_is_ascii_with_a_nul() {
    assert_eq!(w("Hi"), Some(vec![0x48, 0x69, 0]));
    assert_eq!(w(""), Some(vec![0]));
    assert_eq!(w("\u{7f}\u{1}"), Some(vec![0x7f, 1, 0]));
    assert_eq!(w("H\0i"), None);
    assert_eq!(w("H\u{e9}"), None);
    assert_eq!(w("\u{80}"), None);
    let class = w(CLASS_NAME).unwrap();
    assert_eq!(class.len(), 31);
    assert_eq!(String::from_utf16(&class[..30]).unwrap(), CLASS_NAME);
}

#[test]
fn the_header_of_a_literal_tells_its_length() {
    assert_eq!(HSTRING_REFERENCE_FLAG | UNKNOWN_FLAG_10, 0x11);
    assert_eq!(
        h(CLASS_NAME),
        Some(Some(HstringHeader { flags: 0x11, len: 30, padding1: 0, padding2: 0 }))
    );
    assert_eq!(h("a"), Some(Some(HstringHeader { flags: 0x11, len: 1, padding1: 0, padding2: 0 })));
    assert_eq!(h(""), Some(None));
    assert_eq!(h("a\0"), None);
    assert_eq!(h("\u{fc}"), None);
}

#[test]
fn activation_is_tried_again_once_after_com_was_not_initialised() {
    let not_initialised = Err(HRESULT(CO_E_NOTINITIALIZED));
    assert_eq!(
        windows::get_timezone_inner(Answer::Activated { instance: not_initialised, retried: false }),
        Step::IncrementMtaUsage
    );
    assert_eq!(windows::get_timezone_inner(Answer::MtaUsage(Ok(()))), Step::Activate { retried: true });
    assert_eq!(
        windows::get_timezone_inner(Answer::Activated { instance: not_initialised, retried: true }),
        Step::Done(Err(GetTimezoneError::IoError(Error::Os(CO_E_NOTINITIALIZED))))
    );
    assert_eq!(
        windows::get_timezone_inner(Answer::MtaUsage(Err(HRESULT(-3)))),
        Step::Done(Err(GetTimezoneError::IoError(Error::Os(-3))))
    );
    for retried in [false, true] {
        assert_eq!(
            windows::get_timezone_inner(Answer::Activated { instance: Err(HRESULT(E_FAIL)), retried }),
            Step::Done(Err(GetTimezoneError::IoError(Error::Os(E_FAIL))))
        );
        let instance = Inspectable::activate(HRESULT(0), 0x1000);
        assert_eq!(windows::get_timezone_inner(Answer::Activated { instance, retried }), Step::Query);
    }
}

#[test]
fn a_failed_call_ends_the_resolution_with_its_status() {
    assert_eq!(
        windows::get_timezone_inner(Answer::Queried(TzOnCalendar::query(HRESULT(0), 0x2000))),
        Step::GetTimeZone
    );
    assert_eq!(
        windows::get_timezone_inner(Answer::Queried(TzOnCalendar::query(HRESULT(-2), 0))),
        Step::Done(Err(GetTimezoneError::IoError(Error::Os(-2))))
    );
    assert_eq!(
        windows::get_timezone_inner(Answer::Queried(TzOnCalendar::query(HRESULT(0), 0))),
        Step::Done(Err(GetTimezoneError::IoError(Error::Os(E_FAIL))))
    );
    assert_eq!(
        windows::get_timezone_inner(Answer::TimeZone(Hstring::from_tz_on_calendar(HRESULT(0), 0x3000))),
        Step::GetStringRawBuffer
    );
    assert_eq!(
        windows::get_timezone_inner(Answer::TimeZone(Hstring::from_tz_on_calendar(HRESULT(-9), 0))),
        Step::Done(Err(GetTimezoneError::IoError(Error::Os(-9))))
    );
    assert_eq!(
        windows::get_timezone_inner(Answer::TimeZone(Hstring::from_tz_on_calendar(HRESULT(0), 0))),
        Step::Done(Err(GetTimezoneError::IoError(Error::Os(0))))
    );
}

#[test]
fn the_units_of_the_string_are_the_name() {
    let units: Vec<u16> = "Europe/Berlin".encode_utf16().collect();
    assert_eq!(
        windows::get_timezone_inner(Answer::RawBuffer(Ok(&units))),
        Step::Done(Ok(Timezone::new("Europe/Berlin").unwrap()))
    );
    assert_eq!(windows::get_timezone_inner(Answer::RawBuffer(Ok(&[]))), Step::Done(FAILED));
    assert_eq!(windows::get_timezone_inner(Answer::RawBuffer(Ok(&[0xd800]))), Step::Done(FAILED));
    assert_eq!(windows::get_timezone_inner(Answer::RawBuffer(Ok(&[0x61; 32]))), Step::Done(FAILED));
    assert_eq!(windows::get_timezone_inner(Answer::RawBuffer(Err(()))), Step::Done(FAILED));
}

#[test]
fn a_whole_resolution_with_one_retry() {
    let units: Vec<u16> = "America/Chicago".encode_utf16().collect();
    let mut step = Step::Activate { retried: false };
    let mut increments = 0;
    let mut activations = 0;
    let result = loop {
        step = match step {
            Step::Activate { retried } => {
                activations += 1;
                let instance = if increments == 0 {
                    Inspectable::activate(HRESULT(CO_E_NOTINITIALIZED), 0)
                } else {
                    Inspectable::activate(HRESULT(0), 0x1000)
                };
                windows::get_timezone_inner(Answer::Activated { instance, retried })
            }
            Step::IncrementMtaUsage => {
                increments += 1;
                windows::get_timezone_inner(Answer::MtaUsage(HRESULT(0).into_result()))
            }
            Step::Query => windows::get_timezone_inner(Answer::Queried(TzOnCalendar::query(HRESULT(0), 0x2000))),
            Step::GetTimeZone => windows::get_timezone_inner(Answer::TimeZone(
                Hstring::from_tz_on_calendar(HRESULT(0), 0x3000),
            )),
            Step::GetStringRawBuffer => windows::get_timezone_inner(Answer::RawBuffer(Ok(&units))),
            Step::Done(result) => break result,
        }
    };
    assert_eq!(result.unwrap().as_str(), "America/Chicago");
    assert_eq!(increments, 1);
    assert_eq!(activations, 2);
}
