use zoneinfo::body::read_zone_info;
use zoneinfo::decode::{find_terminator, table_end};
use zoneinfo::header::Header;
use zoneinfo::lookup::find_location;
use zoneinfo::text::{decode_text, trim_text};
use zoneinfo::wire::{read_i32_at, read_i64_at, read_u32_at};
use zoneinfo::{DecodeError, Field, LookupError, TransitionTimeFlag, ZoneInfo};

#[derive(Clone)]
struct Tables {
    version: u8,
    times: Vec<i64>,
    types: Vec<u8>,
    local: Vec<(i32, u8, u8)>,
    pool: Vec<u8>,
    leaps: Vec<(i64, i32)>,
    std_flags: Vec<u8>,
    gmt_flags: Vec<u8>,
}

fn push_time(out: &mut Vec<u8>, time: i64, wide: bool) {
    if wide {
        out.extend_from_slice(&time.to_be_bytes());
    } else {
        out.extend_from_slice(&(time as i32).to_be_bytes());
    }
}

fn body(tables: &Tables, wide: bool) -> Vec<u8> {
    let mut out = Vec::new();
    out.extend_from_slice(b"TZif");
    out.push(tables.version);
    out.extend_from_slice(&[0u8; 15]);
    for count in [
        tables.gmt_flags.len(),
        tables.std_flags.len(),
        tables.leaps.len(),
        tables.times.len(),
        tables.local.len(),
        tables.pool.len(),
    ] {
        out.extend_from_slice(&(count as u32).to_be_bytes());
    }
    for time in &tables.times {
        push_time(&mut out, *time, wide);
    }
    out.extend_from_slice(&tables.types);
    for (offset, dst, abbr) in &tables.local {
        out.extend_from_slice(&offset.to_be_bytes());
        out.push(*dst);
        out.push(*abbr);
    }
    out.extend_from_slice(&tables.pool);
    for (time, seconds) in &tables.leaps {
        push_time(&mut out, *time, wide);
        out.extend_from_slice(&seconds.to_be_bytes());
    }
    out.extend_from_slice(&tables.std_flags);
    out.extend_from_slice(&tables.gmt_flags);
    out
}

fn sample() -> Tables {
    Tables {
        version: 0,
        times: vec![-1000, 0, 5000],
        types: vec![0, 1, 0],
        local: vec![(3600, 0, 0), (7200, 1, 4)],
        pool: b"CET\0CEST\0".to_vec(),
        leaps: vec![(78796800, 1), (94694401, 2)],
        std_flags: vec![1, 0],
        gmt_flags: vec![0, 1],
    }
}

fn error_of(buffer: &[u8]) -> DecodeError {
    match ZoneInfo::load(buffer, true) {
        Ok(_) => panic!("the buffer was accepted"),
        Err(e) => e,
    }
}

#[test]
fn big_endian_unsigned_word() {
    let buf = [0xAA, 0x12, 0x34, 0x56, 0x78, 0xBB];
    assert_eq!(read_u32_at(&buf, 1), 0x1234_5678);
    assert_eq!(read_u32_at(&buf, 0), 0xAA12_3456);
    assert_eq!(read_u32_at(&[0xFF, 0xFF, 0xFF, 0xFF], 0), u32::MAX);
}

#[test]
fn big_endian_signed_word() {
    assert_eq!(read_i32_at(&[0x00, 0x00, 0x0E, 0x10], 0), 3600);
    assert_eq!(read_i32_at(&[0xFF, 0xFF, 0xFF, 0xFE], 0), -2);
    assert_eq!(read_i32_at(&[0x80, 0x00, 0x00, 0x00], 0), i32::MIN);
    assert_eq!(read_i32_at(&[0x7F, 0xFF, 0xFF, 0xFF], 0), i32::MAX);
    assert_eq!(read_i32_at(&[9, 0xFF, 0xFF, 0xAB, 0xA0], 1), -21600);
}

#[test]
fn big_endian_signed_double_word() {
    let buf = [0xFF, 0xFF, 0xFF, 0xFF, 0x26, 0xBA, 0x18, 0x28];
    assert_eq!(read_i64_at(&buf, 0), -3645237208);
    assert_eq!(read_i64_at(&[0, 0, 0, 0, 0, 0, 0x03, 0xE8], 0), 1000);
    assert_eq!(read_i64_at(&[0x80, 0, 0, 0, 0, 0, 0, 0], 0), i64::MIN);
    assert_eq!(read_i64_at(&[7, 0x7F, 0xFF, 0xFF, 0xFF, 0xFF, 0xFF, 0xFF, 0xFF], 1), i64::MAX);
}

#[test]
fn text_is_utf8() {
    assert_eq!(decode_text(b"CEST"), Some("CEST".to_string()));
    assert_eq!(decode_text(b""), Some(String::new()));
    assert_eq!(decode_text(&[0xC3, 0xA9, 0x74, 0xC3, 0xA9]), Some("\u{e9}t\u{e9}".to_string()));
    assert_eq!(decode_text(&[0xE2, 0x82, 0xAC]), Some("\u{20ac}".to_string()));
    assert_eq!(decode_text(&[0x43, 0xFF]), None);
    assert_eq!(decode_text(&[0xC3]), None);
    assert_eq!(decode_text(&[0xC0, 0x80]), None);
    assert_eq!(decode_text(&[0xED, 0xA0, 0x80]), None);
}

#[test]
fn trimming_removes_white_space_at_both_ends() {
    assert_eq!(trim_text(&"\nCET-1CEST,M3.5.0,M10.5.0/3\n".to_string()), "CET-1CEST,M3.5.0,M10.5.0/3");
    assert_eq!(trim_text(&" \t a b \r\n".to_string()), "a b");
    assert_eq!(trim_text(&"".to_string()), "");
    assert_eq!(trim_text(&" \n ".to_string()), "");
    assert_eq!(trim_text(&"x".to_string()), "x");
}

#[test]
fn trimming_knows_the_white_space_of_unicode() {
    for code in [
        0x09u32, 0x0A, 0x0B, 0x0C, 0x0D, 0x20, 0x85, 0xA0, 0x1680, 0x2000, 0x2001, 0x2002, 0x2003,
        0x2004, 0x2005, 0x2006, 0x2007, 0x2008, 0x2009, 0x200A, 0x2028, 0x2029, 0x202F, 0x205F,
        0x3000,
    ] {
        let c = char::from_u32(code).unwrap();
        assert_eq!(trim_text(&format!("{}UTC0{}", c, c)), "UTC0");
    }
    for code in [0x08u32, 0x0E, 0x1C, 0x1F, 0x21, 0x84, 0x86, 0x9F, 0xA1, 0x180E, 0x1FFF, 0x200B, 0x2027, 0x202A, 0x2060, 0x2FFF, 0x3001, 0xFEFF] {
        let c = char::from_u32(code).unwrap();
        let text = format!("{}UTC0{}", c, c);
        assert_eq!(trim_text(&text), text);
    }
}

#[test]
fn table_end_is_exact() {
    assert_eq!(table_end(100, 44, 7, 8), Some(100));
    assert_eq!(table_end(99, 44, 7, 8), None);
    assert_eq!(table_end(100, 100, 0, 12), Some(100));
    assert_eq!(table_end(100, 100, 1, 1), None);
    assert_eq!(table_end(50, 10, 4, 6), Some(34));
    assert_eq!(table_end(10, 0, u32::MAX, 12), None);
}

#[test]
fn terminator_is_the_next_zero_byte_or_the_end_of_the_pool() {
    let buf = b"..LMT\0CEST\0XY!!";
    assert_eq!(find_terminator(buf, 2, 11, 0), Some(3));
    assert_eq!(find_terminator(buf, 2, 11, 1), Some(2));
    assert_eq!(find_terminator(buf, 2, 11, 3), Some(0));
    assert_eq!(find_terminator(buf, 2, 11, 4), Some(4));
    assert_eq!(find_terminator(buf, 2, 11, 9), Some(2));
    assert_eq!(find_terminator(buf, 2, 11, 11), Some(0));
    assert_eq!(find_terminator(buf, 2, 11, 12), None);
    assert_eq!(find_terminator(buf, 2, 0, 0), Some(0));
    assert_eq!(find_terminator(buf, 2, 0, 1), None);
}

#[test]
fn header_fields_are_read_in_order() {
    let mut buf = vec![0xEE; 3];
    buf.extend_from_slice(b"TZif3");
    buf.extend_from_slice(&[0xAB; 15]);
    for count in [6u32, 5, 4, 3, 2, 0x01020304] {
        buf.extend_from_slice(&count.to_be_bytes());
    }
    let header = Header::decode(&buf, 3).unwrap();
    assert_eq!(
        header,
        Header {
            version: b'3',
            gmt_flag_count: 6,
            std_flag_count: 5,
            leap_count: 4,
            transition_count: 3,
            local_time_type_count: 2,
            abbreviation_char_count: 0x01020304,
        }
    );
    assert!(header.has_wide_body());
    assert!(Header { version: b'2', ..header }.has_wide_body());
    assert!(!Header { version: 0, ..header }.has_wide_body());
    assert!(!Header { version: b'4', ..header }.has_wide_body());
    assert!(!Header { version: b'1', ..header }.has_wide_body());
}

#[test]
fn truncated_header_names_the_field() {
    let full = body(&sample(), false);
    let expected = [
        (0, Field::Magic),
        (3, Field::Magic),
        (4, Field::Version),
        (5, Field::Reserved),
        (19, Field::Reserved),
        (20, Field::GmtFlagCount),
        (23, Field::GmtFlagCount),
        (24, Field::StdFlagCount),
        (27, Field::StdFlagCount),
        (28, Field::LeapCount),
        (31, Field::LeapCount),
        (32, Field::TransitionCount),
        (35, Field::TransitionCount),
        (36, Field::LocalTimeTypeCount),
        (39, Field::LocalTimeTypeCount),
        (40, Field::AbbreviationCharCount),
        (43, Field::AbbreviationCharCount),
    ];
    for (len, field) in expected {
        assert_eq!(error_of(&full[..len]), DecodeError::Truncated(field));
        assert_eq!(Header::decode(&full[..len], 0), Err(DecodeError::Truncated(field)));
    }
}

#[test]
fn truncated_table_names_the_pass() {
    let full = body(&sample(), false);
    // 44 header, 12 times, 3 types, 12 records + 9 pool, 16 leaps, 2 + 2 flags
    assert_eq!(full.len(), 100);
    let expected = [
        (44, Field::TransitionTimes),
        (55, Field::TransitionTimes),
        (56, Field::TransitionTypes),
        (58, Field::TransitionTypes),
        (59, Field::LocalTimeTypes),
        (70, Field::LocalTimeTypes),
        (71, Field::LocalTimeTypes),
        (79, Field::LocalTimeTypes),
        (80, Field::LeapSeconds),
        (95, Field::LeapSeconds),
        (96, Field::StdWallFlags),
        (97, Field::StdWallFlags),
        (98, Field::UtLocalFlags),
        (99, Field::UtLocalFlags),
    ];
    for (len, field) in expected {
        assert_eq!(error_of(&full[..len]), DecodeError::Truncated(field));
    }
    assert!(ZoneInfo::load(&full, true).is_ok());
}

#[test]
fn truncated_wide_table_names_the_pass() {
    let mut tables = sample();
    tables.version = b'2';
    let mut full = body(&tables, false);
    full.extend_from_slice(&body(&tables, true));
    // the wide body: 44 header, 24 times, 3 types, 21 local, 24 leaps, 4 flags
    assert_eq!(full.len(), 100 + 120);
    let expected = [
        (100, Field::Magic),
        (100 + 4, Field::Version),
        (100 + 43, Field::AbbreviationCharCount),
        (100 + 44, Field::TransitionTimes),
        (100 + 67, Field::TransitionTimes),
        (100 + 68, Field::TransitionTypes),
        (100 + 71, Field::LocalTimeTypes),
        (100 + 91, Field::LocalTimeTypes),
        (100 + 92, Field::LeapSeconds),
        (100 + 115, Field::LeapSeconds),
        (100 + 116, Field::StdWallFlags),
        (100 + 119, Field::UtLocalFlags),
    ];
    for (len, field) in expected {
        assert_eq!(error_of(&full[..len]), DecodeError::Truncated(field));
        match ZoneInfo::load(&full[..len], false) {
            Ok(_) => panic!("the buffer was accepted"),
            Err(e) => assert_eq!(e, DecodeError::Truncated(field)),
        }
    }
    assert!(ZoneInfo::load(&full, true).is_ok());
    assert!(ZoneInfo::load(&full, false).is_ok());
}

#[test]
fn count_beyond_the_buffer_is_a_truncation() {
    let mut full = body(&sample(), false);
    full[32..36].copy_from_slice(&u32::MAX.to_be_bytes());
    assert_eq!(error_of(&full), DecodeError::Truncated(Field::TransitionTimes));
    let mut full = body(&sample(), false);
    full[40..44].copy_from_slice(&u32::MAX.to_be_bytes());
    assert_eq!(error_of(&full), DecodeError::Truncated(Field::LocalTimeTypes));
    let mut full = body(&sample(), false);
    full[20..24].copy_from_slice(&u32::MAX.to_be_bytes());
    assert_eq!(error_of(&full), DecodeError::Truncated(Field::UtLocalFlags));
}

#[test]
fn magic_mismatch_is_a_format_error() {
    let mut full = body(&sample(), false);
    full[3] = b'F';
    assert_eq!(error_of(&full), DecodeError::BadMagic);
    assert_eq!(error_of(b"TZiF"), DecodeError::BadMagic);
    assert_eq!(error_of(b"GIF89a"), DecodeError::BadMagic);
    assert_eq!(error_of(&[0u8; 200]), DecodeError::BadMagic);
    assert_eq!(error_of(b"tzif"), DecodeError::BadMagic);
    match ZoneInfo::new(b"\x7fELF\x02\x01\x01") {
        Ok(_) => panic!("the buffer was accepted"),
        Err(e) => assert_eq!(e, DecodeError::BadMagic),
    }
    // fewer than four bytes cannot be judged
    assert_eq!(error_of(b"GIF"), DecodeError::Truncated(Field::Magic));
    assert_eq!(error_of(b""), DecodeError::Truncated(Field::Magic));
}

#[test]
fn magic_of_the_second_body_is_checked() {
    let mut tables = sample();
    tables.version = b'2';
    let mut full = body(&tables, false);
    let first = full.len();
    full.extend_from_slice(&body(&tables, true));
    full[first] = b'X';
    assert_eq!(error_of(&full), DecodeError::BadMagic);
    match ZoneInfo::load(&full, false) {
        Ok(_) => panic!("the buffer was accepted"),
        Err(e) => assert_eq!(e, DecodeError::BadMagic),
    }
}

#[test]
fn type_index_out_of_range_is_refused() {
    let mut tables = sample();
    tables.types = vec![0, 2, 0];
    assert_eq!(error_of(&body(&tables, false)), DecodeError::TypeIndexOutOfRange);
    tables.types = vec![0, 1, 255];
    assert_eq!(error_of(&body(&tables, false)), DecodeError::TypeIndexOutOfRange);
    tables.types = vec![1, 1, 1];
    assert!(ZoneInfo::load(&body(&tables, false), true).is_ok());
    tables.local = vec![];
    tables.types = vec![0, 0, 0];
    assert_eq!(error_of(&body(&tables, false)), DecodeError::TypeIndexOutOfRange);
}

#[test]
fn type_index_is_judged_before_later_tables_are_missed() {
    let mut tables = sample();
    tables.types = vec![0, 2, 0];
    let full = body(&tables, false);
    assert_eq!(error_of(&full[..59]), DecodeError::TypeIndexOutOfRange);
    assert_eq!(error_of(&full[..58]), DecodeError::Truncated(Field::TransitionTypes));
}

#[test]
fn abbreviation_beyond_the_pool_is_refused() {
    let mut tables = sample();
    tables.local = vec![(3600, 0, 0), (7200, 1, 10)];
    assert_eq!(error_of(&body(&tables, false)), DecodeError::UnterminatedAbbreviation);
    tables.local = vec![(3600, 0, 200), (7200, 1, 4)];
    assert_eq!(error_of(&body(&tables, false)), DecodeError::UnterminatedAbbreviation);
    tables.local = vec![(3600, 0, 0), (7200, 1, 9)];
    let zone = ZoneInfo::load(&body(&tables, false), true).unwrap();
    assert_eq!(zone.get_actual_zoneinfo(1).unwrap().abbreviation, "");
}

#[test]
fn abbreviation_may_run_to_the_end_of_the_pool() {
    let mut tables = sample();
    tables.pool = b"CET\0CEST".to_vec();
    let zone = ZoneInfo::load(&body(&tables, false), true).unwrap();
    assert_eq!(zone.get_actual_zoneinfo(1).unwrap().abbreviation, "CEST");
    assert_eq!(zone.get_actual_zoneinfo(0).unwrap().abbreviation, "CET");
}

#[test]
fn abbreviation_that_is_not_text_is_refused() {
    let mut tables = sample();
    tables.pool = b"CET\0C\xFFST\0".to_vec();
    assert_eq!(error_of(&body(&tables, false)), DecodeError::InvalidAbbreviationText);
    tables.pool = b"C\xC3T\0CEST\0".to_vec();
    assert_eq!(error_of(&body(&tables, false)), DecodeError::InvalidAbbreviationText);
    // every abbreviation is placed before any is read as text
    tables.local = vec![(3600, 0, 0), (7200, 1, 10)];
    assert_eq!(error_of(&body(&tables, false)), DecodeError::UnterminatedAbbreviation);
}

#[test]
fn abbreviation_may_be_any_utf8() {
    let mut tables = sample();
    tables.pool = "CET\0\u{e9}t\u{e9}\0".as_bytes().to_vec();
    let zone = ZoneInfo::load(&body(&tables, false), true).unwrap();
    assert_eq!(zone.get_actual_zoneinfo(1).unwrap().abbreviation, "\u{e9}t\u{e9}");
}

#[test]
fn rule_string_that_is_not_text_is_refused() {
    let mut tables = sample();
    tables.version = b'2';
    let mut full = body(&tables, false);
    full.extend_from_slice(&body(&tables, true));
    full.extend_from_slice(b"\nCET-1\xFF\n");
    assert_eq!(error_of(&full), DecodeError::InvalidRuleText);
    match ZoneInfo::load(&full, false) {
        Ok(_) => panic!("the buffer was accepted"),
        Err(e) => assert_eq!(e, DecodeError::InvalidRuleText),
    }
}

#[test]
fn legacy_file_has_no_rule_string() {
    let mut full = body(&sample(), false);
    full.extend_from_slice(b"\nCET-1CEST\n");
    let zone = ZoneInfo::load(&full, true).unwrap();
    assert_eq!(zone.get_dst_specifier(), "");
    full.extend_from_slice(&[0xFF, 0xFE]);
    let zone = ZoneInfo::load(&full, true).unwrap();
    assert_eq!(zone.get_dst_specifier(), "");
}

#[test]
fn unknown_version_is_read_as_legacy() {
    let mut tables = sample();
    tables.version = b'4';
    let mut full = body(&tables, false);
    full.extend_from_slice(b"garbage");
    let zone = ZoneInfo::load(&full, true).unwrap();
    assert_eq!(zone.get_dst_specifier(), "");
    assert_eq!(zone.get_transitions().len(), 3);
}

#[test]
fn rule_string_is_trimmed() {
    let mut tables = sample();
    tables.version = b'3';
    let mut full = body(&tables, false);
    full.extend_from_slice(&body(&tables, true));
    let without = full.clone();
    full.extend_from_slice(b"\nCET-1CEST,M3.5.0,M10.5.0/3\n");
    let zone = ZoneInfo::load(&full, true).unwrap();
    assert_eq!(zone.get_dst_specifier(), "CET-1CEST,M3.5.0,M10.5.0/3");
    let zone = ZoneInfo::load(&full, false).unwrap();
    assert_eq!(zone.get_dst_specifier(), "CET-1CEST,M3.5.0,M10.5.0/3");
    let zone = ZoneInfo::load(&without, true).unwrap();
    assert_eq!(zone.get_dst_specifier(), "");
}

#[test]
fn body_tables_agree_with_the_header() {
    let tables = sample();
    for wide in [false, true] {
        let full = body(&tables, wide);
        let (zone, end) = read_zone_info(&full, 0, wide).unwrap();
        assert_eq!(end, full.len());
        assert_eq!(zone.header.transition_count, 3);
        assert_eq!(zone.header.local_time_type_count, 2);
        assert_eq!(zone.transition_times, vec![-1000, 0, 5000]);
        assert_eq!(zone.transition_types, vec![0, 1, 0]);
        assert_eq!(zone.transition_times.len(), zone.header.transition_count as usize);
        assert_eq!(zone.transition_types.len(), zone.header.transition_count as usize);
        assert_eq!(zone.local_times.len(), zone.header.local_time_type_count as usize);
        for index in &zone.transition_types {
            assert!((*index as u32) < zone.header.local_time_type_count);
        }
        assert_eq!(zone.local_times[0].ut_offset, 3600);
        assert!(!zone.local_times[0].isdst);
        assert_eq!(zone.local_times[0].abbreviation, "CET");
        assert_eq!(zone.local_times[1].ut_offset, 7200);
        assert!(zone.local_times[1].isdst);
        assert_eq!(zone.local_times[1].abbreviation, "CEST");
        assert_eq!(zone.leap_seconds_data, vec![(78796800, 1), (94694401, 2)]);
        assert_eq!(
            zone.transition_flags1,
            vec![TransitionTimeFlag::Standard, TransitionTimeFlag::WallClock]
        );
        assert_eq!(
            zone.transition_flags2,
            vec![TransitionTimeFlag::Local, TransitionTimeFlag::Universal]
        );
    }
}

#[test]
fn body_is_read_from_its_base() {
    let tables = sample();
    let mut full = vec![0x55; 7];
    full.extend_from_slice(&body(&tables, true));
    full.extend_from_slice(&[0x66; 5]);
    let (zone, end) = read_zone_info(&full, 7, true).unwrap();
    assert_eq!(end, full.len() - 5);
    assert_eq!(zone.transition_times, vec![-1000, 0, 5000]);
}

#[test]
fn wide_timestamps_keep_their_range() {
    let mut tables = sample();
    tables.times = vec![i64::MIN, -3645237208, i64::MAX];
    tables.leaps = vec![(-3645237208, -1), (1 << 40, i32::MIN)];
    let (zone, _) = read_zone_info(&body(&tables, true), 0, true).unwrap();
    assert_eq!(zone.transition_times, vec![i64::MIN, -3645237208, i64::MAX]);
    assert_eq!(zone.leap_seconds_data, vec![(-3645237208, -1), (1 << 40, i32::MIN)]);
    tables.times = vec![i32::MIN as i64, -1, i32::MAX as i64];
    tables.leaps = vec![(-5, -1), (i32::MAX as i64, i32::MAX)];
    let (zone, _) = read_zone_info(&body(&tables, false), 0, false).unwrap();
    assert_eq!(zone.transition_times, vec![-2147483648, -1, 2147483647]);
    assert_eq!(zone.leap_seconds_data, vec![(-5, -1), (2147483647, i32::MAX)]);
}

#[test]
fn location_is_found_where_it_stands_first() {
    let all = vec![
        "Africa/Abidjan".to_string(),
        "Europe/Amsterdam".to_string(),
        "Europe/Paris".to_string(),
        "Europe/Amsterdam".to_string(),
    ];
    assert_eq!(find_location(&all, "Europe/Amsterdam"), Ok(1));
    assert_eq!(find_location(&all, "Africa/Abidjan"), Ok(0));
    assert_eq!(find_location(&all, "Europe/Paris"), Ok(2));
    assert_eq!(find_location(&all, "Europe/Berlin"), Err(LookupError::NotFound));
    assert_eq!(find_location(&all, "Europe"), Err(LookupError::NotFound));
    assert_eq!(find_location(&all, ""), Err(LookupError::NotFound));
    assert_eq!(find_location(&vec![], "Europe/Paris"), Err(LookupError::NotFound));
}
