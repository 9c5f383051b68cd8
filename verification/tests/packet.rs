use exempi2::xmp::CloneStep;
use exempi2::{DateTime, Error, PropFlags, SerialFlags, Xmp, XmpError};

const NS: &str = "http://ns.adobe.com/xap/1.0/";
const BAD: Error = Error(XmpError::BadParam);

#[test]
fn a_packet_adopts_its_handle() {
    let mut x = Xmp::new(0x5000);
    assert!(!x.is_null());
    assert_eq!(x.as_ptr(), 0x5000);
    assert_eq!(x.as_mut_ptr(), 0x5000);
    assert_eq!(x.parse(), 0x5000);
    assert_eq!(Xmp::from(0x6000).as_ptr(), 0x6000);
    assert!(Xmp::new(0).is_null());
    assert_eq!(x.release(), Some(0x5000));
    assert_eq!(Xmp::new(0).release(), None);
}

#[test]
fn a_refused_buffer_gives_the_parse_error() {
    assert_eq!(Xmp::from_buffer(0x5000, -106).unwrap().as_ptr(), 0x5000);
    assert_eq!(Xmp::from_buffer(0, -106).unwrap_err(), Error(XmpError::BadParse));
    assert_eq!(Xmp::from_buffer(0, -201).unwrap_err(), Error(XmpError::BadXML));
}

#[test]
fn cloning_a_null_packet_gives_a_null_packet() {
    match Xmp::new(0).clone_step() {
        CloneStep::Done(clone) => assert!(clone.is_null()),
        CloneStep::Copy { .. } => panic!("nothing to copy"),
    }
    match Xmp::new(0x5000).clone_step() {
        CloneStep::Copy { source } => assert_eq!(source, 0x5000),
        CloneStep::Done(_) => panic!("the native side copies"),
    }
}

#[test]
fn a_null_packet_cannot_be_serialised() {
    let null = Xmp::new(0);
    assert_eq!(
        null.serialize(SerialFlags::usecompactformat(), 0).unwrap_err(),
        Error(XmpError::BadObject)
    );
    assert_eq!(
        null.serialize_and_format(SerialFlags::usecompactformat(), 0, "\n", "\t", 1).unwrap_err(),
        Error(XmpError::BadObject)
    );
    // The object is looked at before the texts.
    assert_eq!(
        null.serialize_and_format(SerialFlags::usecompactformat(), 0, "\0", "\t", 1).unwrap_err(),
        Error(XmpError::BadObject)
    );
}

#[test]
fn serialising_with_a_layout_carries_every_argument() {
    let x = Xmp::new(0x5000);
    let call = x
        .serialize_and_format(
            SerialFlags::omitpacketwrapper() | SerialFlags::encodeutf16little(),
            2048,
            "\r\n",
            "  ",
            3,
        )
        .unwrap();
    assert_eq!(call.base.xmp, 0x5000);
    assert_eq!(call.base.options, 0x13);
    assert_eq!(call.base.padding, 2048);
    assert_eq!(call.newline.as_bytes_with_nul(), b"\r\n\0");
    assert_eq!(call.tab.as_bytes_with_nul(), b"  \0");
    assert_eq!(call.indent, 3);
    assert_eq!(x.serialize_and_format(SerialFlags::default(), 0, "\n\0", " ", 0).unwrap_err(), BAD);
    assert_eq!(x.serialize_and_format(SerialFlags::default(), 0, "\n", "\0", 0).unwrap_err(), BAD);
}

#[test]
fn getters_name_their_property() {
    let x = Xmp::new(0x5000);
    for call in [
        x.get_property(NS, "Rating"),
        x.get_property_date(NS, "Rating"),
        x.get_property_float(NS, "Rating"),
        x.get_property_bool(NS, "Rating"),
        x.get_property_i32(NS, "Rating"),
        x.get_property_i64(NS, "Rating"),
        x.property(NS, "Rating"),
    ] {
        let call = call.unwrap();
        assert_eq!(call.xmp, 0x5000);
        assert_eq!(call.schema.as_bytes_with_nul(), b"http://ns.adobe.com/xap/1.0/\0");
        assert_eq!(call.name.as_bytes_with_nul(), b"Rating\0");
    }
    let item = x.get_array_item(NS, "Keywords", 3).unwrap();
    assert_eq!(item.index, 3);
    assert_eq!(item.target.name.as_bytes_with_nul(), b"Keywords\0");
    assert_eq!(item.target.xmp, 0x5000);
}

#[test]
fn getters_refuse_text_with_a_zero_byte() {
    let x = Xmp::new(0x5000);
    assert_eq!(x.get_property("a\0", "n").unwrap_err(), BAD);
    assert_eq!(x.get_property(NS, "n\0").unwrap_err(), BAD);
    assert_eq!(x.get_property_date("\0", "n").unwrap_err(), BAD);
    assert_eq!(x.get_property_bool(NS, "\0n").unwrap_err(), BAD);
    assert_eq!(x.get_property_float(NS, "n\0").unwrap_err(), BAD);
    assert_eq!(x.get_property_i32("a\0b", "n").unwrap_err(), BAD);
    assert_eq!(x.get_property_i64(NS, "a\0b").unwrap_err(), BAD);
    assert_eq!(x.get_array_item(NS, "a\0b", 1).unwrap_err(), BAD);
    assert!(x.has_property(NS, "a\0b").is_none());
    assert!(x.has_property("\0", "a").is_none());
    let found = x.has_property(NS, "a").unwrap();
    assert_eq!((found.xmp, found.name.as_bytes_with_nul()), (0x5000, &b"a\0"[..]));
}

#[test]
fn setters_carry_value_and_options() {
    let mut x = Xmp::new(0x5000);
    let s = x.set_property(NS, "Label", "red", PropFlags::has_lang()).unwrap();
    assert_eq!(s.target.xmp, 0x5000);
    assert_eq!(s.target.schema.as_bytes_with_nul(), b"http://ns.adobe.com/xap/1.0/\0");
    assert_eq!(s.target.name.as_bytes_with_nul(), b"Label\0");
    assert_eq!(s.value.as_bytes_with_nul(), b"red\0");
    assert_eq!(s.options, 0x40);
    let b = x.set_property_bool(NS, "Flag", true, PropFlags::none()).unwrap();
    assert_eq!((b.value, b.options), (true, 0));
    let i = x.set_property_i32(NS, "Rating", -5, PropFlags::is_stable()).unwrap();
    assert_eq!((i.value, i.options), (-5, 0x10_0000));
    let l = x.set_property_i64(NS, "Size", 1 << 40, PropFlags::none()).unwrap();
    assert_eq!(l.value, 1 << 40);
    let f = x.set_property_value(NS, "Ratio", 1.5f64, PropFlags::none()).unwrap();
    assert_eq!(f.value, 1.5);
    let mut date = DateTime::new();
    date.set_date(2021, 1, 2);
    let d = x.set_property_date(NS, "CreateDate", &date, PropFlags::none()).unwrap();
    assert_eq!(d.value, date.record());
    assert_eq!(d.target.name.as_bytes_with_nul(), b"CreateDate\0");
    let del = x.delete_property(NS, "Label").unwrap();
    assert_eq!(del.name.as_bytes_with_nul(), b"Label\0");
    assert_eq!(x.as_ptr(), 0x5000);
}

#[test]
fn setters_refuse_text_with_a_zero_byte() {
    let mut x = Xmp::new(0x5000);
    assert_eq!(x.set_property("\0", "n", "v", PropFlags::none()).unwrap_err(), BAD);
    assert_eq!(x.set_property(NS, "\0", "v", PropFlags::none()).unwrap_err(), BAD);
    assert_eq!(x.set_property(NS, "n", "v\0", PropFlags::none()).unwrap_err(), BAD);
    assert_eq!(x.set_property_bool(NS, "n\0", true, PropFlags::none()).unwrap_err(), BAD);
    assert_eq!(x.set_property_i32("s\0", "n", 1, PropFlags::none()).unwrap_err(), BAD);
    assert_eq!(x.set_property_i64("s\0", "n", 1, PropFlags::none()).unwrap_err(), BAD);
    assert_eq!(
        x.set_property_date(NS, "n\0", &DateTime::new(), PropFlags::none()).unwrap_err(),
        BAD
    );
    assert_eq!(x.delete_property(NS, "n\0").unwrap_err(), BAD);
    assert_eq!(x.set_array_item(NS, "n", 1, "\0", PropFlags::none()).unwrap_err(), BAD);
    assert_eq!(
        x.append_array_item(NS, "n", PropFlags::none(), "a\0", PropFlags::none()).unwrap_err(),
        BAD
    );
}

#[test]
fn array_edits_carry_index_and_both_option_sets() {
    let mut x = Xmp::new(0x5000);
    let set = x.set_array_item(NS, "Keywords", 2, "sky", PropFlags::array_insert_after()).unwrap();
    assert_eq!(set.index, 2);
    assert_eq!(set.value.as_bytes_with_nul(), b"sky\0");
    assert_eq!(set.options, 0x8000);
    assert_eq!(set.target.name.as_bytes_with_nul(), b"Keywords\0");
    let app = x
        .append_array_item(
            NS,
            "Keywords",
            PropFlags::value_is_array() | PropFlags::array_is_ordered(),
            "sea",
            PropFlags::has_qualifiers(),
        )
        .unwrap();
    assert_eq!(app.array_options, 0x600);
    assert_eq!(app.item_options, 0x10);
    assert_eq!(app.value.as_bytes_with_nul(), b"sea\0");
    assert_eq!(app.target.xmp, 0x5000);
}

#[test]
fn localized_text_carries_both_languages() {
    let mut x = Xmp::new(0x5000);
    let get = x.get_localized_text(NS, "Title", "en", "en-US").unwrap();
    assert_eq!(get.target.xmp, 0x5000);
    assert_eq!(get.target.name.as_bytes_with_nul(), b"Title\0");
    assert_eq!(get.generic_lang.as_bytes_with_nul(), b"en\0");
    assert_eq!(get.specific_lang.as_bytes_with_nul(), b"en-US\0");
    let set = x.set_localized_text(NS, "Title", "fr", "fr-CA", "Bonjour", PropFlags::none());
    let set = set.unwrap();
    assert_eq!(set.target.generic_lang.as_bytes_with_nul(), b"fr\0");
    assert_eq!(set.target.specific_lang.as_bytes_with_nul(), b"fr-CA\0");
    assert_eq!(set.value.as_bytes_with_nul(), b"Bonjour\0");
    assert_eq!(set.options, 0);
    let del = x.delete_localized_text(NS, "Title", "", "x-default").unwrap();
    assert_eq!(del.generic_lang.as_bytes_with_nul(), b"\0");
    assert_eq!(del.specific_lang.as_bytes_with_nul(), b"x-default\0");
    let alt = x.alternative(NS, "Title", "de", "de-CH").unwrap();
    assert_eq!(alt.specific_lang.as_bytes_with_nul(), b"de-CH\0");
}

#[test]
fn localized_text_refuses_text_with_a_zero_byte() {
    let mut x = Xmp::new(0x5000);
    assert_eq!(x.get_localized_text("\0", "t", "en", "en-US").unwrap_err(), BAD);
    assert_eq!(x.get_localized_text(NS, "t\0", "en", "en-US").unwrap_err(), BAD);
    assert_eq!(x.get_localized_text(NS, "t", "e\0n", "en-US").unwrap_err(), BAD);
    assert_eq!(x.get_localized_text(NS, "t", "en", "\0").unwrap_err(), BAD);
    assert_eq!(
        x.set_localized_text(NS, "t", "en", "en-US", "v\0", PropFlags::none()).unwrap_err(),
        BAD
    );
    assert_eq!(
        x.set_localized_text(NS, "t", "en\0", "en-US", "v", PropFlags::none()).unwrap_err(),
        BAD
    );
    assert_eq!(x.delete_localized_text(NS, "t", "en", "en\0").unwrap_err(), BAD);
}
