use exempi2::reply;
use exempi2::{
    get_error, namespace_prefix, prefix_namespace, register_namespace, Error, FileState, InitOnce,
    InitStep, IterFlags, IteratorValue, PropFlags, SerialFlags, Xmp, XmpError, XmpFile,
    XmpIterator, XmpString,
};

const RUST_NS: &str = "http://rust.figuiere.net/ns/rust/";

#[test]
fn c_it_works() {
    let mut latch = InitOnce::new();
    assert_eq!(latch.begin(), InitStep::CallNative);
    let inited = latch.finish(true);
    assert!(inited);

    let xf = XmpFile::new(0x7f00_1000);
    assert!(!xf.is_null());
    let freed = xf.release();
    assert!(freed == Some(0x7f00_1000));
    assert!(get_error(0).code() == 0);
}

#[test]
fn native_call_works() {
    let mut latch = InitOnce::new();
    let inited = latch.finish(true);
    assert!(inited);

    let xf = XmpFile::new(0x7f00_1000);
    assert!(!xf.is_null());
    assert!(xf.release().is_some());
    assert!(get_error(0).code() == 0);

    let xmp = Xmp::new(0x7f00_2000);
    let call = XmpIterator::new(
        &xmp,
        b"http://purl.org/dc/elements/1.1/",
        b"keywords",
        IterFlags::empty(),
    )
    .unwrap();
    assert_eq!(call.xmp, 0x7f00_2000);
    assert_eq!(call.name.as_bytes_with_nul(), b"keywords\0");
    assert_eq!(call.options, 0);
    let iter = XmpIterator::from_native(&xmp, 0x7f00_3000);
    assert_eq!(iter.release(), Some(0x7f00_3000));
    assert_eq!(xmp.release(), Some(0x7f00_2000));

    let xs = XmpString::new();
    assert!(!xs.is_null());
    assert!(xs.to_str().is_some());
    assert_eq!(xs.as_bytes(), b"");
}

#[test]
fn xmpfile_it_works() {
    let mut latch = InitOnce::new();
    let inited = latch.finish(true);

    assert!(inited);

    let xf = XmpFile::new(0x7f00_1000);
    assert!(!xf.is_null());

    assert!(get_error(0) == Error::from(XmpError::Unknown));
}

#[test]
fn iterator_works() {
    let mut latch = InitOnce::new();
    let inited = latch.finish(true);
    assert!(inited);

    let xmp = Xmp::new(0x7f00_2000);
    let call = XmpIterator::new(
        &xmp,
        b"http://ns.adobe.com/xap/1.0/",
        b"keyword",
        IterFlags::from_bits(0).unwrap_or_default(),
    )
    .unwrap();
    assert_eq!(call.schema.as_bytes_with_nul(), b"http://ns.adobe.com/xap/1.0/\0");
    assert_eq!(call.name.as_bytes_with_nul(), b"keyword\0");
    let mut iter = XmpIterator::from_native(&xmp, 0x7f00_3000);

    // The cursor over an empty packet reports the end at once.
    assert_eq!(iter.next(), Some(0x7f00_3000));
    let record = iter.yielded(false, XmpString::new(), XmpString::new(), XmpString::new(), 0);
    assert_eq!(record, None);
    assert_eq!(iter.next(), None);
}

#[test]
fn test_xmpstring() {
    let s = XmpString::default();

    assert!(!s.is_null());
    assert!(s.is_empty());
    assert_eq!(s.len(), 0);

    let s2 = XmpString::new();
    assert_eq!(s, s2);

    let string = s2.to_string();
    assert_eq!(string, "".to_owned());
}

#[test]
fn libary_tests() {
    // namespace registration tests.
    let call = register_namespace(RUST_NS, "rust");
    assert!(call.is_ok());
    let call = call.unwrap();
    assert_eq!(call.uri.as_bytes_with_nul(), b"http://rust.figuiere.net/ns/rust/\0");
    assert_eq!(call.prefix.as_bytes_with_nul(), b"rust\0");
    let result = reply::outcome(true, XmpString::from_bytes(b"rust:".to_vec()), 0);
    assert!(result.is_ok());
    let prefix = result.unwrap();
    assert!(prefix.to_str() != Some(""));
    let call = namespace_prefix(RUST_NS.as_bytes());
    assert!(call.is_ok());
    let result = reply::outcome(true, XmpString::from_bytes(b"rust:".to_vec()), 0);
    assert!(result.is_ok());
    let prefix2 = result.unwrap();
    assert!(prefix2 == prefix);

    let call = if let Some(prefix) = prefix.to_str() {
        prefix_namespace(prefix.as_bytes())
    } else {
        panic!("Prefix couldn't be decoded");
    };
    assert!(call.is_ok());
    assert_eq!(call.unwrap().as_bytes_with_nul(), b"rust:\0");
    let ns = reply::outcome(true, XmpString::from_bytes(RUST_NS.as_bytes().to_vec()), 0).unwrap();
    assert!(ns.to_str() == Some("http://rust.figuiere.net/ns/rust/"));

    let mut xmpblock = Xmp::new(0x7f00_2000);
    assert!(!xmpblock.is_null());

    let query = xmpblock.has_property(RUST_NS, "test");
    assert!(query.is_some());
    let call = xmpblock.set_property(RUST_NS, "test", "foobar", PropFlags::none());
    assert!(call.is_ok());
    let call = call.unwrap();
    assert_eq!(call.target.xmp, 0x7f00_2000);
    assert_eq!(call.target.name.as_bytes_with_nul(), b"test\0");
    assert_eq!(call.value.as_bytes_with_nul(), b"foobar\0");
    assert_eq!(call.options, 0);
    assert!(reply::check(true, 0).is_ok());

    let mut optionbits: PropFlags = PropFlags::has_lang();
    let call = xmpblock.get_property(RUST_NS, "test");
    assert!(call.is_ok());
    let value = reply::fetched(
        true,
        XmpString::from_bytes(b"foobar".to_vec()),
        0,
        0,
        &mut optionbits,
    );
    assert!(value.is_ok());
    assert!(value.unwrap().to_str() == Some("foobar"));
    assert!(optionbits == PropFlags::none());

    let result = xmpblock.serialize(
        SerialFlags::omitpacketwrapper() | SerialFlags::usecompactformat(),
        0,
    );
    assert!(result.is_ok());
    let call = result.unwrap();
    assert_eq!(call.xmp, 0x7f00_2000);
    assert_eq!(call.options, 0x50);
    assert_eq!(call.padding, 0);
    println!("{}", XmpString::from_bytes(b"<rdf:RDF/>".to_vec()).to_string());
}

#[test]
fn file_without_a_packet_reports_the_native_error() {
    let call = XmpFile::open_new(b"sample.jpg", exempi2::OpenFlags::read()).unwrap();
    assert_eq!(call.path.as_bytes_with_nul(), b"sample.jpg\0");
    assert_eq!(call.options, 1);
    let file = XmpFile::new_from_file(0x7f00_1000, 0).unwrap();
    assert_eq!(file.get_xmp(), Ok(0x7f00_1000));
    // The file holds no packet: the native call fails, with the code -13.
    let fetched = reply::outcome(false, Xmp::new(0x7f00_2000), -13);
    assert_eq!(fetched.unwrap_err(), Error(XmpError::StdException));
    // The format is asked for by path alone, and named by its code.
    let path = XmpFile::check_file_format(b"sample.jpg").unwrap();
    assert_eq!(path.as_bytes_with_nul(), b"sample.jpg\0");
    assert_eq!(exempi2::FileType::from_code(0x4A50_4547), exempi2::FileType::JPEG);
    let never_opened = XmpFile::new(0x7f00_4000);
    assert!(never_opened.get_xmp().is_err());
    assert!(XmpFile::check_file_format(b"sample.jpg").is_some());
    let _ = FileState::Open;
}

#[test]
fn compact_serialisation_of_an_empty_packet_walks_to_nothing() {
    let xmp = Xmp::new(0x7f00_2000);
    let call = xmp
        .serialize(SerialFlags::omitpacketwrapper() | SerialFlags::usecompactformat(), 0)
        .unwrap();
    assert_eq!((call.xmp, call.options, call.padding), (0x7f00_2000, 0x50, 0));
    let out = reply::outcome(true, XmpString::from_bytes(b"<x:xmpmeta/>".to_vec()), 0).unwrap();
    assert!(!out.is_null());
    let parsed = Xmp::from_buffer(0x7f00_5000, 0).unwrap();
    let call = XmpIterator::new(&parsed, b"", b"", IterFlags::none()).unwrap();
    assert_eq!(call.xmp, 0x7f00_5000);
    assert_eq!(call.schema.as_bytes_with_nul(), b"\0");
    let mut iter = XmpIterator::from_native(&parsed, 0x7f00_6000);
    let mut records: Vec<IteratorValue> = Vec::new();
    while let Some(cursor) = iter.next() {
        assert_eq!(cursor, 0x7f00_6000);
        let empty = iter.yielded(false, XmpString::new(), XmpString::new(), XmpString::new(), 0);
        if let Some(record) = empty {
            records.push(record);
        }
    }
    assert!(records.is_empty());
    assert_eq!(iter.next(), None);
}
