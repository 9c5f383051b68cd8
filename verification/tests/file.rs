use exempi2::{
    namespace_prefix, prefix_namespace, register_namespace, CloseFlags, Error, FileType,
    FormatOptionFlags, IterFlags, IterSkipFlags, IteratorValue, OpenFlags, PacketInfo, PropFlags,
    Xmp, XmpError, XmpFile, XmpIterator, XmpPacketInfo, XmpString,
};

const BAD_OBJECT: Error = Error(XmpError::BadObject);
const BAD_PARAM: Error = Error(XmpError::BadParam);

#[test]
fn a_new_handle_is_not_open() {
    let f = XmpFile::new(0x9000);
    assert!(!f.is_null());
    assert!(!f.is_open());
    assert_eq!(f.usable(), Err(BAD_OBJECT));
    assert_eq!(f.get_new_xmp(), Err(BAD_OBJECT));
    assert_eq!(f.get_xmp(), Err(BAD_OBJECT));
    assert_eq!(f.get_xmp_xmpstring(), Err(BAD_OBJECT));
    assert_eq!(f.get_file_info(), None);
    assert!(f.can_put_xmp(&Xmp::new(0x5000)).is_none());
    assert!(f.can_put_xmp_str("<x/>").is_none());
    assert!(f.can_put_xmp_xmpstring(&XmpString::from_bytes(b"<x/>".to_vec())).is_none());
}

#[test]
fn a_handle_goes_from_unopened_to_open_to_closed() {
    let mut f = XmpFile::new(0x9000);
    let open = f.open(b"/tmp/a.jpg", OpenFlags::read() | OpenFlags::only_xmp()).unwrap();
    assert_eq!(open.file, 0x9000);
    assert_eq!(open.path.as_bytes_with_nul(), b"/tmp/a.jpg\0");
    assert_eq!(open.options, 5);
    // Asking to open changes nothing; the native outcome does.
    assert!(!f.is_open());
    assert_eq!(f.opened(false, -108), Err(Error(XmpError::BadFileFormat)));
    assert!(!f.is_open());
    assert_eq!(f.opened(true, 0), Ok(()));
    assert!(f.is_open());
    assert_eq!(f.get_xmp(), Ok(0x9000));
    assert_eq!(f.get_new_xmp(), Ok(0x9000));
    assert_eq!(f.get_xmp_xmpstring(), Ok(0x9000));
    assert_eq!(f.get_file_info(), Some(0x9000));

    let close = f.close(CloseFlags::safe_update()).unwrap();
    assert_eq!((close.file, close.options), (0x9000, 1));
    assert_eq!(f.closed(false, -11), Err(Error(XmpError::ExternalFailure)));
    assert!(f.is_open());
    assert_eq!(f.closed(true, 0), Ok(()));
    assert!(!f.is_open());
    assert_eq!(f.get_xmp(), Err(BAD_OBJECT));
    assert_eq!(f.release(), Some(0x9000));
}

#[test]
fn a_null_handle_is_a_bad_object() {
    let mut f = XmpFile::new(0);
    assert!(f.is_null());
    assert_eq!(f.open(b"a.jpg", OpenFlags::read()).unwrap_err(), BAD_OBJECT);
    assert_eq!(f.open(b"a\0.jpg", OpenFlags::read()).unwrap_err(), BAD_OBJECT);
    assert_eq!(f.close(CloseFlags::none()).unwrap_err(), BAD_OBJECT);
    assert_eq!(f.put_xmp(&Xmp::new(0x5000)).unwrap_err(), BAD_OBJECT);
    assert_eq!(f.get_xmp(), Err(BAD_OBJECT));
    // Even a reply that claims success makes no usable handle of it.
    assert_eq!(f.opened(true, 0), Ok(()));
    assert!(!f.is_open());
    assert_eq!(f.get_xmp(), Err(BAD_OBJECT));
    assert_eq!(f.release(), None);
}

#[test]
fn a_path_with_a_zero_byte_is_a_bad_parameter() {
    let mut f = XmpFile::new(0x9000);
    assert_eq!(f.open(b"a\0.jpg", OpenFlags::read()).unwrap_err(), BAD_PARAM);
    assert_eq!(XmpFile::open_new(b"\0", OpenFlags::read()).unwrap_err(), BAD_PARAM);
    assert!(XmpFile::check_file_format(b"a\0").is_none());
}

#[test]
fn opening_in_one_step_gives_an_open_handle_or_the_error() {
    let f = XmpFile::new_from_file(0x9000, 0).unwrap();
    assert!(f.is_open());
    assert_eq!(f.get_xmp(), Ok(0x9000));
    assert_eq!(XmpFile::new_from_file(0, -109).unwrap_err(), Error(XmpError::NoFileHandler));
    assert_eq!(XmpFile::new_from_file(0, -108).unwrap_err(), Error(XmpError::BadFileFormat));
}

#[test]
fn packets_are_put_through_an_open_handle_only() {
    let mut f = XmpFile::new_from_file(0x9000, 0).unwrap();
    let x = Xmp::new(0x5000);
    let can = f.can_put_xmp(&x).unwrap();
    assert_eq!((can.file, can.xmp), (0x9000, 0x5000));
    let put = f.put_xmp(&x).unwrap();
    assert_eq!((put.file, put.xmp), (0x9000, 0x5000));
    assert!(f.can_put_xmp(&Xmp::new(0)).is_none());
    assert_eq!(f.put_xmp(&Xmp::new(0)).unwrap_err(), BAD_OBJECT);

    let text = f.can_put_xmp_str("<x:xmpmeta/>").unwrap();
    assert_eq!(text.file, 0x9000);
    assert_eq!(text.packet.as_bytes_with_nul(), b"<x:xmpmeta/>\0");
    assert_eq!(text.len, 12);
    assert!(f.can_put_xmp_str("<x:\0/>").is_none());
    let held = f.can_put_xmp_xmpstring(&XmpString::from_bytes(b"<rdf/>".to_vec())).unwrap();
    assert_eq!((held.packet.as_bytes_with_nul(), held.len), (&b"<rdf/>\0"[..], 6));
    assert!(f.can_put_xmp_xmpstring(&XmpString::null()).is_none());

    f.closed(true, 0).unwrap();
    assert!(f.can_put_xmp(&x).is_none());
    assert_eq!(f.put_xmp(&x).unwrap_err(), BAD_OBJECT);
}

#[test]
fn file_information_is_decoded() {
    let mut path = String::from("file://");
    let mut options = OpenFlags::none();
    let mut format = FileType::Unknown;
    let mut handler = FormatOptionFlags::none();
    let ok = XmpFile::file_info(
        true,
        &XmpString::from_bytes(b"/tmp/a.jpg".to_vec()),
        0x5,
        0x4A50_4547,
        0x27f,
        &mut path,
        &mut options,
        &mut format,
        &mut handler,
    );
    assert!(ok);
    assert_eq!(path, "file:///tmp/a.jpg");
    assert_eq!(options, OpenFlags::read() | OpenFlags::only_xmp());
    assert_eq!(format, FileType::JPEG);
    assert_eq!(handler.bits(), 0x27f);

    let ok = XmpFile::file_info(
        false,
        &XmpString::null(),
        0x400,
        7,
        0x80,
        &mut path,
        &mut options,
        &mut format,
        &mut handler,
    );
    assert!(!ok);
    assert_eq!(path, "file:///tmp/a.jpg");
    assert_eq!(options, OpenFlags::empty());
    assert_eq!(format, FileType::Unknown);
    assert_eq!(handler, FormatOptionFlags::empty());
}

#[test]
fn format_capabilities_are_decoded() {
    assert_eq!(
        XmpFile::get_format_info(true, 0x3, 0),
        Ok(FormatOptionFlags::can_inject_xmp() | FormatOptionFlags::can_expand())
    );
    assert_eq!(XmpFile::get_format_info(true, 0x80, 0), Ok(FormatOptionFlags::none()));
    assert_eq!(XmpFile::get_format_info(false, 0x3, -109), Err(Error(XmpError::NoFileHandler)));
}

#[test]
fn packet_information_starts_empty() {
    assert_eq!(
        PacketInfo::default(),
        PacketInfo(XmpPacketInfo {
            offset: 0,
            length: 0,
            pad_size: 0,
            char_form: 0,
            writeable: false,
            has_wrapper: false,
            pad: 0,
        })
    );
}

#[test]
fn a_walk_yields_records_until_the_end() {
    let xmp = Xmp::new(0x5000);
    let mut iter = XmpIterator::from_native(&xmp, 0x7000);
    assert!(!iter.is_null());
    assert_eq!(iter.as_ptr(), 0x7000);
    assert_eq!(iter.next(), Some(0x7000));
    let record = iter
        .yielded(
            true,
            XmpString::from_bytes(b"http://purl.org/dc/elements/1.1/".to_vec()),
            XmpString::from_bytes(b"dc:subject".to_vec()),
            XmpString::from_bytes(b"".to_vec()),
            0x200,
        )
        .unwrap();
    assert_eq!(record.name.to_str(), Some("dc:subject"));
    assert_eq!(record.option, PropFlags::value_is_array());
    // A schema node comes with a bit that has no name.
    let node =
        iter.yielded(true, XmpString::new(), XmpString::new(), XmpString::new(), 0x8000_0000);
    assert_eq!(node, Some(IteratorValue::new()));
    let skip = iter.skip(IterSkipFlags::subtree()).unwrap();
    assert_eq!((skip.iter, skip.options), (0x7000, 1));
    assert_eq!(iter.next(), Some(0x7000));
    assert_eq!(
        iter.yielded(false, XmpString::new(), XmpString::new(), XmpString::new(), 0),
        None
    );
    // Exhausted for good, whatever a later reply says.
    for _ in 0..3 {
        assert_eq!(iter.next(), None);
        assert_eq!(
            iter.yielded(true, XmpString::new(), XmpString::new(), XmpString::new(), 0),
            None
        );
    }
    assert_eq!(iter.release(), Some(0x7000));
}

#[test]
fn a_null_iterator_yields_nothing() {
    let xmp = Xmp::new(0x5000);
    let mut iter = XmpIterator::from_native(&xmp, 0);
    assert!(iter.is_null());
    assert_eq!(iter.next(), None);
    assert!(iter.skip(IterSkipFlags::siblings()).is_none());
    assert_eq!(iter.release(), None);
}

#[test]
fn a_walk_is_asked_for_with_its_filters() {
    let xmp = Xmp::new(0x5000);
    let call = XmpIterator::new(
        &xmp,
        b"http://ns.adobe.com/exif/1.0/",
        b"",
        IterFlags::just_leaf_nodes() | IterFlags::omit_qualifiers(),
    )
    .unwrap();
    assert_eq!(call.xmp, 0x5000);
    assert_eq!(call.schema.as_bytes_with_nul(), b"http://ns.adobe.com/exif/1.0/\0");
    assert_eq!(call.name.as_bytes_with_nul(), b"\0");
    assert_eq!(call.options, 0x1200);
    assert_eq!(XmpIterator::new(&xmp, b"\0", b"", IterFlags::none()).unwrap_err(), BAD_PARAM);
    assert_eq!(XmpIterator::new(&xmp, b"", b"a\0", IterFlags::none()).unwrap_err(), BAD_PARAM);
    assert_eq!(IteratorValue::default(), IteratorValue::new());
}

#[test]
fn namespaces_are_asked_for_by_encoded_text() {
    let reg = register_namespace("http://example.com/ns/", "ex").unwrap();
    assert_eq!(reg.uri.as_bytes_with_nul(), b"http://example.com/ns/\0");
    assert_eq!(reg.prefix.as_bytes_with_nul(), b"ex\0");
    assert_eq!(register_namespace("http://e\0", "ex").unwrap_err(), BAD_PARAM);
    assert_eq!(register_namespace("http://e", "e\0x").unwrap_err(), BAD_PARAM);
    assert_eq!(namespace_prefix(b"http://e/").unwrap().as_bytes_with_nul(), b"http://e/\0");
    assert_eq!(namespace_prefix(b"\0").unwrap_err(), BAD_PARAM);
    assert_eq!(prefix_namespace(b"ex:").unwrap().as_bytes_with_nul(), b"ex:\0");
    assert_eq!(prefix_namespace(b"ex\0:").unwrap_err(), BAD_PARAM);
}
