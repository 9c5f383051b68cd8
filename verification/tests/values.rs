use std::cmp::Ordering;

use exempi2::text::{contains_nul, CText};
use exempi2::xmpstring::same_bytes;
use exempi2::{DateTime, Error, FileType, TzSign, XmpDateTime, XmpError, XmpString};

#[test]
fn text_is_closed_by_one_zero_byte() {
    let t = CText::encode("dc:title").unwrap();
    assert_eq!(t.as_bytes_with_nul(), b"dc:title\0");
    assert_eq!(t.len(), 8);
    assert_eq!(t.as_bytes(), b"dc:title");
    assert!(!t.is_empty());
    let e = CText::encode("").unwrap();
    assert_eq!(e.as_bytes_with_nul(), b"\0");
    assert_eq!(e.len(), 0);
    assert_eq!(e.as_bytes(), b"");
    assert!(e.is_empty());
    let u = CText::encode("caf\u{e9}").unwrap();
    assert_eq!(u.as_bytes_with_nul(), b"caf\xc3\xa9\0");
    let b = CText::from_bytes(&[0xff, 0x01]).unwrap();
    assert_eq!(b.as_bytes_with_nul(), &[0xff, 0x01, 0x00]);
}

#[test]
fn text_with_a_zero_byte_is_a_bad_parameter() {
    assert_eq!(CText::encode("a\0b").unwrap_err(), Error(XmpError::BadParam));
    assert_eq!(CText::encode("\0").unwrap_err(), Error(XmpError::BadParam));
    assert_eq!(CText::encode("ab\0").unwrap_err(), Error(XmpError::BadParam));
    assert_eq!(CText::from_bytes(b"\0ab").unwrap_err(), Error(XmpError::BadParam));
    assert!(contains_nul(b"a\0"));
    assert!(!contains_nul(b"a0"));
    assert!(!contains_nul(b""));
}

#[test]
fn byte_runs_compare_by_content() {
    assert!(same_bytes(b"", b""));
    assert!(same_bytes(b"abc", b"abc"));
    assert!(!same_bytes(b"abc", b"abd"));
    assert!(!same_bytes(b"abc", b"ab"));
    assert!(!same_bytes(b"", b"a"));
}

#[test]
fn a_string_reads_as_its_bytes() {
    let s = XmpString::from_bytes(b"foobar".to_vec());
    assert!(!s.is_null());
    assert!(!s.is_empty());
    assert_eq!(s.len(), 6);
    assert_eq!(s.as_bytes(), b"foobar");
    assert_eq!(s.to_str(), Some("foobar"));
    assert_eq!(s.to_string(), "foobar");
    let u = XmpString::from_bytes("gr\u{fc}n".as_bytes().to_vec());
    assert_eq!(u.len(), 5);
    assert_eq!(u.to_str(), Some("gr\u{fc}n"));
    assert_eq!(u.to_string(), "gr\u{fc}n");
}

#[test]
fn a_null_string_reads_as_empty() {
    let s = XmpString::null();
    assert!(s.is_null());
    assert!(s.is_empty());
    assert_eq!(s.len(), 0);
    assert_eq!(s.as_bytes(), b"");
    assert_eq!(s.to_str(), None);
    assert_eq!(s.to_string(), "");
}

#[test]
fn ill_formed_bytes_have_no_text_but_a_lenient_reading() {
    let s = XmpString::from_bytes(vec![b'f', 0xff, b'o']);
    assert_eq!(s.len(), 3);
    assert_eq!(s.to_str(), None);
    assert_eq!(s.to_string(), "f\u{fffd}o");
    let cut = XmpString::from_bytes(vec![0xc3]);
    assert_eq!(cut.to_str(), None);
    assert_eq!(cut.to_string(), "\u{fffd}");
}

#[test]
fn strings_compare_by_what_they_decode_to() {
    let a = XmpString::from_bytes(b"rust".to_vec());
    let b = XmpString::from_bytes(b"rust".to_vec());
    let c = XmpString::from_bytes(b"rusty".to_vec());
    assert!(a == b);
    assert!(a != c);
    assert!(XmpString::new() == XmpString::default());
    assert!(XmpString::new() != a);
    // Neither decodes, so both stand for no text.
    let x = XmpString::from_bytes(vec![0xff]);
    let y = XmpString::from_bytes(vec![0xfe, 0xfe]);
    assert!(x == y);
    assert!(x == XmpString::null());
    assert!(x != XmpString::new());
    assert!(XmpString::null() != XmpString::new());
}

#[test]
fn a_new_date_is_all_zero() {
    let d = DateTime::new();
    assert_eq!(
        d.record(),
        XmpDateTime {
            year: 0,
            month: 0,
            day: 0,
            hour: 0,
            minute: 0,
            second: 0,
            tz_sign: TzSign::UTC,
            tz_hour: 0,
            tz_minute: 0,
            nano_second: 0,
        }
    );
    assert_eq!(DateTime::default().record(), d.record());
    assert_eq!(XmpDateTime::default(), d.record());
}

#[test]
fn date_setters_change_their_fields_only() {
    let mut d = DateTime::new();
    d.set_date(2021, 12, 25);
    assert_eq!((d.year(), d.month(), d.day()), (2021, 12, 25));
    assert_eq!((d.hour(), d.minute(), d.second(), d.nano_second()), (0, 0, 0, 0));
    d.set_time(10, 42, 12);
    assert_eq!((d.hour(), d.minute(), d.second()), (10, 42, 12));
    assert_eq!((d.year(), d.month(), d.day()), (2021, 12, 25));
    d.set_nano_second(999);
    assert_eq!(d.nano_second(), 999);
    d.set_timezone(TzSign::West, 5, 30);
    assert_eq!((d.tz_sign(), d.tz_hour(), d.tz_minute()), (TzSign::West, 5, 30));
    assert_eq!(
        d.record(),
        XmpDateTime {
            year: 2021,
            month: 12,
            day: 25,
            hour: 10,
            minute: 42,
            second: 12,
            tz_sign: TzSign::West,
            tz_hour: 5,
            tz_minute: 30,
            nano_second: 999,
        }
    );
    assert_eq!(*d.as_ptr(), d.record());
    d.as_mut_ptr().year = 1999;
    assert_eq!(d.year(), 1999);
    let copy = DateTime::from(d.record());
    assert_eq!(copy.record(), d.record());
}

#[test]
fn time_zone_signs_have_their_codes() {
    assert_eq!(TzSign::West.code(), -1);
    assert_eq!(TzSign::UTC.code(), 0);
    assert_eq!(TzSign::East.code(), 1);
    assert_eq!(TzSign::from_code(-1), Some(TzSign::West));
    assert_eq!(TzSign::from_code(0), Some(TzSign::UTC));
    assert_eq!(TzSign::from_code(1), Some(TzSign::East));
    assert_eq!(TzSign::from_code(2), None);
    assert_eq!(TzSign::from_code(-2), None);
    assert_eq!(TzSign::decode(-1), TzSign::West);
    assert_eq!(TzSign::decode(0), TzSign::UTC);
    assert_eq!(TzSign::decode(1), TzSign::East);
    assert_eq!(TzSign::decode(i32::MIN), TzSign::West);
    assert_eq!(TzSign::decode(7), TzSign::East);
}

#[test]
fn a_native_comparison_reads_as_an_order() {
    assert_eq!(DateTime::ordering_of(0), Ordering::Equal);
    assert_eq!(DateTime::ordering_of(-1), Ordering::Less);
    assert_eq!(DateTime::ordering_of(i32::MIN), Ordering::Less);
    assert_eq!(DateTime::ordering_of(1), Ordering::Greater);
    assert_eq!(DateTime::ordering_of(i32::MAX), Ordering::Greater);
}

#[test]
fn formats_are_named_by_four_characters() {
    let named: [(FileType, &[u8; 4]); 38] = [
        (FileType::PDF, b"PDF "),
        (FileType::PS, b"PS  "),
        (FileType::EPS, b"EPS "),
        (FileType::JPEG, b"JPEG"),
        (FileType::JPEG2K, b"JPX "),
        (FileType::TIFF, b"TIFF"),
        (FileType::GIF, b"GIF "),
        (FileType::PNG, b"PNG "),
        (FileType::WEBP, b"WEBP"),
        (FileType::SWF, b"SWF "),
        (FileType::FLA, b"FLA "),
        (FileType::FLV, b"FLV "),
        (FileType::MOV, b"MOV "),
        (FileType::AVI, b"AVI "),
        (FileType::CIN, b"CIN "),
        (FileType::WAV, b"WAV "),
        (FileType::MP3, b"MP3 "),
        (FileType::SES, b"SES "),
        (FileType::CEL, b"CEL "),
        (FileType::MPEG, b"MPEG"),
        (FileType::MPEG2, b"MP2 "),
        (FileType::MPEG4, b"MP4 "),
        (FileType::WMAV, b"WMAV"),
        (FileType::AIFF, b"AIFF"),
        (FileType::HTML, b"HTML"),
        (FileType::XML, b"XML "),
        (FileType::TEXT, b"text"),
        (FileType::Photoshop, b"PSD "),
        (FileType::Illustrator, b"AI  "),
        (FileType::InDesign, b"INDD"),
        (FileType::AEProject, b"AEP "),
        (FileType::AEProjTemplate, b"AET "),
        (FileType::AEFilterPreset, b"FFX "),
        (FileType::EncoreProject, b"NCOR"),
        (FileType::PremiereProject, b"PRPJ"),
        (FileType::PremiereTitle, b"PRTL"),
        (FileType::UCFFile, b"UCF "),
        (FileType::Unknown, b"    "),
    ];
    for (format, tag) in named {
        let code = u32::from_be_bytes(*tag);
        assert_eq!(format.code(), code);
        assert_eq!(FileType::from_code(code), format);
    }
    assert_eq!(FileType::PDF.code(), 0x5044_4620);
    assert_eq!(FileType::JPEG.code(), 0x4A50_4547);
    assert_eq!(FileType::Unknown.code(), 0x2020_2020);
}

#[test]
fn a_code_of_no_format_is_unknown() {
    assert_eq!(FileType::from_code(0), FileType::Unknown);
    assert_eq!(FileType::from_code(0x4A50_4548), FileType::Unknown);
    assert_eq!(FileType::from_code(u32::MAX), FileType::Unknown);
    assert_eq!(FileType::from_code(u32::from_be_bytes(*b"jpeg")), FileType::Unknown);
}
