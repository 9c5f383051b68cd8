use exempi2::{
    CloseFlags, FormatOptionFlags, IterFlags, IterSkipFlags, OpenFlags, PropFlags, SerialFlags,
};

#[test]
fn open_flags_have_their_native_values() {
    assert_eq!(OpenFlags::none().bits(), 0);
    assert_eq!(OpenFlags::read().bits(), 0x1);
    assert_eq!(OpenFlags::for_update().bits(), 0x2);
    assert_eq!(OpenFlags::only_xmp().bits(), 0x4);
    assert_eq!(OpenFlags::cache_tnail().bits(), 0x8);
    assert_eq!(OpenFlags::strictly().bits(), 0x10);
    assert_eq!(OpenFlags::use_smart_handler().bits(), 0x20);
    assert_eq!(OpenFlags::use_packet_scanning().bits(), 0x40);
    assert_eq!(OpenFlags::limited_scanning().bits(), 0x80);
    assert_eq!(OpenFlags::repair_file().bits(), 0x100);
    assert_eq!(OpenFlags::optimize_file_layout().bits(), 0x200);
    assert_eq!(OpenFlags::in_background().bits(), 0x1000_0000);
    assert_eq!(OpenFlags::all().bits(), 0x1000_03ff);
}

#[test]
fn other_flags_have_their_native_values() {
    assert_eq!(CloseFlags::none().bits(), 0);
    assert_eq!(CloseFlags::safe_update().bits(), 1);
    assert_eq!(FormatOptionFlags::can_inject_xmp().bits(), 1);
    assert_eq!(FormatOptionFlags::handler_owns_file().bits(), 0x100);
    assert_eq!(FormatOptionFlags::folder_based_format().bits(), 0x1000);
    assert_eq!(FormatOptionFlags::all().bits(), 0x1f7f);
    assert_eq!(PropFlags::value_is_uri().bits(), 0x2);
    assert_eq!(PropFlags::has_lang().bits(), 0x40);
    assert_eq!(PropFlags::array_is_unordered(), PropFlags::value_is_array());
    assert_eq!(PropFlags::array_form_mask().bits(), 0x1e00);
    assert_eq!(PropFlags::composite_mask().bits(), 0x1f00);
    assert_eq!(PropFlags::is_derived().bits(), 0x20_0000);
    assert_eq!(PropFlags::impl_reserved_mask().bits(), 0x7000_0000);
    assert_eq!(PropFlags::all().bits(), 0x7037_dff2);
    assert_eq!(SerialFlags::omitpacketwrapper().bits(), 0x10);
    assert_eq!(SerialFlags::usecompactformat().bits(), 0x40);
    assert_eq!(SerialFlags::encodeutf16little().bits(), 3);
    assert_eq!(SerialFlags::encodeutf32little().bits(), 5);
    assert_eq!(SerialFlags::all().bits(), 0x0f77);
    assert_eq!(IterFlags::class_mask().bits(), 0xff);
    assert_eq!(IterFlags::just_leaf_nodes().bits(), 0x200);
    assert_eq!(IterFlags::omit_qualifiers().bits(), 0x1000);
    assert_eq!(IterFlags::all().bits(), 0x1fff);
    assert_eq!(IterSkipFlags::subtree().bits(), 1);
    assert_eq!(IterSkipFlags::siblings().bits(), 2);
    assert_eq!(IterSkipFlags::all().bits(), 3);
}

#[test]
fn union_of_two_sets_decodes_to_a_set_with_both() {
    let a = OpenFlags::read() | OpenFlags::only_xmp();
    let b = OpenFlags::in_background();
    let raw = (a | b).bits();
    assert_eq!(raw, 0x1000_0005);
    let back = OpenFlags::decode(raw);
    assert!(back.contains(a));
    assert!(back.contains(b));
    assert_eq!(back, a.union(b));
    assert_eq!(OpenFlags::from_bits(raw), Some(a | b));
}

#[test]
fn a_mask_with_a_nameless_bit_decodes_to_the_empty_set() {
    assert_eq!(OpenFlags::from_bits(0x0000_0400), None);
    assert_eq!(OpenFlags::decode(0x0000_0400), OpenFlags::empty());
    assert_eq!(OpenFlags::decode(0x0000_0401), OpenFlags::none());
    assert_eq!(OpenFlags::decode(u32::MAX).bits(), 0);
    assert_eq!(PropFlags::decode(0x8000_0000), PropFlags::empty());
    assert_eq!(PropFlags::decode(0x8000_0040).bits(), 0);
    assert_eq!(FormatOptionFlags::decode(0x80), FormatOptionFlags::none());
    assert_eq!(CloseFlags::decode(2).bits(), 0);
    assert_eq!(IterSkipFlags::decode(4).bits(), 0);
    assert_eq!(IterFlags::decode(0x2000).bits(), 0);
    assert_eq!(SerialFlags::decode(0x8).bits(), 0);
    assert_eq!(OpenFlags::from_bits_truncate(0x0000_0401), OpenFlags::read());
}

#[test]
fn set_operations_work_on_the_bits() {
    let a = PropFlags::value_is_array() | PropFlags::array_is_ordered();
    let b = PropFlags::array_is_ordered() | PropFlags::has_lang();
    assert_eq!(a.bits(), 0x600);
    assert_eq!(a.union(b).bits(), 0x640);
    assert_eq!(a.intersection(b).bits(), 0x400);
    assert_eq!(a.difference(b).bits(), 0x200);
    assert!(a.intersects(b));
    assert!(!a.contains(b));
    assert!(a.contains(PropFlags::value_is_array()));
    assert!(!PropFlags::value_is_array().intersects(PropFlags::has_lang()));
    assert!(PropFlags::empty().is_empty());
    assert!(!a.is_empty());
    assert!(PropFlags::all().is_all());
    assert!(!a.is_all());
    let mut c = a;
    c.insert(PropFlags::has_lang());
    assert_eq!(c.bits(), 0x640);
    c.remove(PropFlags::value_is_array());
    assert_eq!(c.bits(), 0x440);
    assert_eq!(PropFlags::default(), PropFlags::none());
    assert_eq!(IterFlags::from_bits(0).unwrap_or_default(), IterFlags::properties());
}
