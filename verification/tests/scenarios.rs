use std::borrow::Cow;
use univstring::{
    ConversionError, NarrowCString, UnivString, Utf16CString, Utf32CString, WideCStr, WideWidth,
};

#[test]
fn hello_world_to_cstr_is_the_terminated_bytes() {
    let r = "Hello World".to_cstr().unwrap();
    assert_eq!(
        r.as_slice_with_nul(),
        &[0x48u8, 0x65, 0x6C, 0x6C, 0x6F, 0x20, 0x57, 0x6F, 0x72, 0x6C, 0x64, 0x00][..]
    );
    assert_eq!(r.as_slice(), &b"Hello World"[..]);
    assert_eq!(r.len(), 11);
}

#[test]
fn hello_world_to_ucstr16_is_the_terminated_units() {
    let r = "Hello World".to_ucstr16().unwrap();
    assert_eq!(
        r.as_slice_with_nul(),
        &[
            0x0048u16, 0x0065, 0x006C, 0x006C, 0x006F, 0x0020, 0x0057, 0x006F, 0x0072, 0x006C,
            0x0064, 0x0000
        ][..]
    );
}

#[test]
fn hello_world_to_ucstr32_is_the_terminated_units() {
    let r = "Hello World".to_ucstr32().unwrap();
    assert_eq!(
        r.as_slice_with_nul(),
        &[
            0x48u32, 0x65, 0x6C, 0x6C, 0x6F, 0x20, 0x57, 0x6F, 0x72, 0x6C, 0x64, 0x00
        ][..]
    );
}

#[test]
fn string_converts_as_its_str_does() {
    let owned = String::from("Hello World");
    assert_eq!(owned.to_cstr().unwrap().as_slice(), &b"Hello World"[..]);
    assert_eq!(
        owned.to_ucstr16().unwrap().as_slice(),
        "Hello World".to_ucstr16().unwrap().as_slice()
    );
    assert_eq!(
        owned.to_ucstr32().unwrap().as_slice(),
        "Hello World".to_ucstr32().unwrap().as_slice()
    );
    assert_eq!(&*UnivString::to_string(&owned).unwrap(), "Hello World");
}

#[test]
fn wide_of_a_16_bit_string_at_width_16_is_a_borrow() {
    let w = Utf16CString::new(vec![0x0048, 0x0069]).unwrap();
    match w.to_wcstr(WideWidth::Bits16) {
        Ok(WideCStr::Utf16(Cow::Borrowed(b))) => assert!(std::ptr::eq(b, &w)),
        other => panic!("not a borrow of the source: {:?}", other),
    }
}

#[test]
fn wide_of_a_32_bit_string_at_width_32_is_a_borrow() {
    let w = Utf32CString::new(vec![0x48, 0x69]).unwrap();
    match w.to_wcstr(WideWidth::Bits32) {
        Ok(WideCStr::Utf32(Cow::Borrowed(b))) => assert!(std::ptr::eq(b, &w)),
        other => panic!("not a borrow of the source: {:?}", other),
    }
}

#[test]
fn wide_of_a_16_bit_string_at_width_32_is_transcoded() {
    let w = Utf16CString::new(vec![0x0048, 0xD83E, 0xDD80]).unwrap();
    match w.to_wcstr(WideWidth::Bits32) {
        Ok(WideCStr::Utf32(Cow::Owned(s))) => assert_eq!(s.as_slice(), &[0x48u32, 0x1F980][..]),
        other => panic!("not a 32-bit copy: {:?}", other),
    }
}

#[test]
fn wide_of_a_32_bit_string_at_width_16_is_transcoded() {
    let w = Utf32CString::new(vec![0x48, 0x1F980]).unwrap();
    match w.to_wcstr(WideWidth::Bits16) {
        Ok(WideCStr::Utf16(Cow::Owned(s))) => {
            assert_eq!(s.as_slice(), &[0x0048u16, 0xD83E, 0xDD80][..])
        }
        other => panic!("not a 16-bit copy: {:?}", other),
    }
}

#[test]
fn wide_of_text_follows_the_width() {
    match "Hi".to_wcstr(WideWidth::Bits16) {
        Ok(WideCStr::Utf16(s)) => assert_eq!(s.as_slice_with_nul(), &[0x48u16, 0x69, 0][..]),
        other => panic!("not 16-bit: {:?}", other),
    }
    match "Hi".to_wcstr(WideWidth::Bits32) {
        Ok(WideCStr::Utf32(s)) => assert_eq!(s.as_slice_with_nul(), &[0x48u32, 0x69, 0][..]),
        other => panic!("not 32-bit: {:?}", other),
    }
    match String::from("Hi").to_wcstr(WideWidth::Bits32) {
        Ok(WideCStr::Utf32(s)) => assert_eq!(s.as_slice(), &[0x48u32, 0x69][..]),
        other => panic!("not 32-bit: {:?}", other),
    }
}

#[test]
fn wide_of_a_narrow_string_follows_the_width() {
    let c = NarrowCString::new(b"Hi".to_vec()).unwrap();
    match c.to_wcstr(WideWidth::Bits16) {
        Ok(WideCStr::Utf16(s)) => assert_eq!(s.as_slice(), &[0x48u16, 0x69][..]),
        other => panic!("not 16-bit: {:?}", other),
    }
    match c.to_wcstr(WideWidth::Bits32) {
        Ok(WideCStr::Utf32(s)) => assert_eq!(s.as_slice(), &[0x48u32, 0x69][..]),
        other => panic!("not 32-bit: {:?}", other),
    }
}

#[test]
fn wide_failures_keep_their_kind() {
    match "a\0b".to_wcstr(WideWidth::Bits16) {
        Err(ConversionError::Nul(e)) => assert_eq!(e.nul_position(), 1),
        other => panic!("not a terminator failure: {:?}", other),
    }
    match "a\0b".to_wcstr(WideWidth::Bits32) {
        Err(ConversionError::Nul(e)) => assert_eq!(e.nul_position(), 1),
        other => panic!("not a terminator failure: {:?}", other),
    }
    let bad16 = Utf16CString::new(vec![0xD800]).unwrap();
    assert!(matches!(
        bad16.to_wcstr(WideWidth::Bits32),
        Err(ConversionError::InvalidUChar16(_))
    ));
    let bad32 = Utf32CString::new(vec![0x110000]).unwrap();
    assert!(matches!(
        bad32.to_wcstr(WideWidth::Bits16),
        Err(ConversionError::InvalidUChar32(_))
    ));
    let bad8 = NarrowCString::new(vec![0xFF]).unwrap();
    assert!(matches!(
        bad8.to_wcstr(WideWidth::Bits16),
        Err(ConversionError::InvalidChar(_))
    ));
}
