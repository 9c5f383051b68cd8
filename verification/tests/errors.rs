use exempi2::reply;
use exempi2::{get_error, Error, InitOnce, InitState, InitStep, XmpError};

const ALL: [(XmpError, i32); 37] = [
    (XmpError::Unknown, 0),
    (XmpError::TBD, -1),
    (XmpError::Unavailable, -2),
    (XmpError::BadObject, -3),
    (XmpError::BadParam, -4),
    (XmpError::BadValue, -5),
    (XmpError::AssertFailure, -6),
    (XmpError::EnforceFailure, -7),
    (XmpError::Unimplemented, -8),
    (XmpError::InternalFailure, -9),
    (XmpError::Deprecated, -10),
    (XmpError::ExternalFailure, -11),
    (XmpError::UserAbort, -12),
    (XmpError::StdException, -13),
    (XmpError::UnknownException, -14),
    (XmpError::NoMemory, -15),
    (XmpError::BadSchema, -101),
    (XmpError::BadXPath, -102),
    (XmpError::BadOptions, -103),
    (XmpError::BadIndex, -104),
    (XmpError::BadIterPosition, -105),
    (XmpError::BadParse, -106),
    (XmpError::BadSerialize, -107),
    (XmpError::BadFileFormat, -108),
    (XmpError::NoFileHandler, -109),
    (XmpError::TooLargeForJPEG, -110),
    (XmpError::BadXML, -201),
    (XmpError::BadRDF, -202),
    (XmpError::BadXMP, -203),
    (XmpError::EmptyIterator, -204),
    (XmpError::BadUnicode, -205),
    (XmpError::BadTIFF, -206),
    (XmpError::BadJPEG, -207),
    (XmpError::BadPSD, -208),
    (XmpError::BadPSIR, -209),
    (XmpError::BadIPTC, -210),
    (XmpError::BadMPEG, -211),
];

#[test]
fn every_kind_maps_to_its_code_and_back() {
    for (kind, code) in ALL {
        assert_eq!(kind.code(), code);
        assert_eq!(XmpError::from_code(code), kind);
        assert_eq!(get_error(code), Error(kind));
        assert_eq!(Error(kind).code(), code);
        assert_eq!(Error(kind).kind(), kind);
        assert_eq!(Error::from(kind), Error(kind));
    }
}

#[test]
fn every_kind_prints_as_its_code() {
    for (kind, code) in ALL {
        assert_eq!(kind.as_str(), format!("{}", code));
        assert_eq!(Error(kind).to_string(), format!("{}", code));
    }
    assert_eq!(Error(XmpError::BadIndex).to_string(), "-104");
    assert_eq!(Error(XmpError::Unknown).to_string(), "0");
}

#[test]
fn a_code_of_no_kind_is_undefined() {
    for code in [1, 2, 100, -16, -17, -99, -100, -111, -112, -200, -212, -1000, i32::MIN, i32::MAX] {
        assert_eq!(XmpError::from_code(code), XmpError::TBD);
        assert_eq!(get_error(code), Error(XmpError::TBD));
    }
}

#[test]
fn every_code_in_the_three_blocks_has_a_kind() {
    let blocks = (-15..=0).chain(-110..=-101).chain(-211..=-201);
    let mut count = 0;
    for code in blocks {
        assert_eq!(XmpError::from_code(code).code(), code);
        count += 1;
    }
    assert_eq!(count, 37);
}

#[test]
fn a_flag_outcome_becomes_a_result() {
    assert_eq!(reply::check(true, -3), Ok(()));
    assert_eq!(reply::check(false, -3), Err(Error(XmpError::BadObject)));
    assert_eq!(reply::check(false, 0), Err(Error(XmpError::Unknown)));
    assert_eq!(reply::check(false, 77), Err(Error(XmpError::TBD)));
    assert_eq!(reply::outcome(true, 5u8, -106), Ok(5u8));
    assert_eq!(reply::outcome(false, 5u8, -106), Err(Error(XmpError::BadParse)));
}

#[test]
fn a_handle_outcome_becomes_a_result() {
    assert_eq!(reply::handle(0x10, -106), Ok(0x10));
    assert_eq!(reply::handle(0, -106), Err(Error(XmpError::BadParse)));
    assert_eq!(reply::handle(0, -108), Err(Error(XmpError::BadFileFormat)));
}

#[test]
fn reading_a_property_decodes_its_options_either_way() {
    let mut flags = exempi2::PropFlags::none();
    let r = reply::fetched(true, 12i64, 0x240, 0, &mut flags);
    assert_eq!(r, Ok(12));
    assert_eq!(flags.bits(), 0x240);
    let r = reply::fetched(false, 12i64, 0x10, -102, &mut flags);
    assert_eq!(r, Err(Error(XmpError::BadXPath)));
    assert_eq!(flags.bits(), 0x10);
    let r = reply::fetched(true, 1.5f64, 0x8000_0000, 0, &mut flags);
    assert_eq!(r, Ok(1.5));
    assert!(flags.is_empty());
}

#[test]
fn initialisation_runs_once() {
    let mut latch = InitOnce::new();
    assert!(!latch.is_ready());
    assert_eq!(latch.require_ready(), Err(Error(XmpError::Unavailable)));
    assert_eq!(latch.begin(), InitStep::CallNative);
    assert!(latch.finish(true));
    assert!(latch.is_ready());
    assert_eq!(latch.require_ready(), Ok(()));
    for _ in 0..5 {
        assert_eq!(latch.begin(), InitStep::Known(true));
        assert!(latch.finish(false));
    }
    let _ = InitState::Fresh;
}

#[test]
fn a_failed_initialisation_is_what_every_caller_sees() {
    let mut latch = InitOnce::default();
    assert!(!latch.finish(false));
    assert_eq!(latch.begin(), InitStep::Known(false));
    assert!(!latch.finish(true));
    assert!(!latch.is_ready());
    assert_eq!(latch.require_ready(), Err(Error(XmpError::Unavailable)));
}
