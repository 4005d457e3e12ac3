use univstring::{ConversionError, NarrowCString, UnivString, Utf16CString, Utf32CString};

#[test]
fn text_with_a_zero_byte_has_no_narrow_form() {
    match "Hello\0World".to_cstr() {
        Err(ConversionError::Nul(e)) => {
            assert_eq!(e.nul_position(), 5);
            assert_eq!(e.into_vec(), b"Hello\0World".to_vec());
        }
        other => panic!("not a terminator failure: {:?}", other),
    }
}

#[test]
fn the_first_of_several_zero_bytes_is_named() {
    match "\0a\0".to_cstr() {
        Err(ConversionError::Nul(e)) => assert_eq!(e.nul_position(), 0),
        other => panic!("not a terminator failure: {:?}", other),
    }
    match "ab\0\0".to_cstr() {
        Err(ConversionError::Nul(e)) => assert_eq!(e.nul_position(), 2),
        other => panic!("not a terminator failure: {:?}", other),
    }
}

#[test]
fn a_zero_at_the_end_of_text_is_rejected_too() {
    match "Hello\0".to_cstr() {
        Err(ConversionError::Nul(e)) => assert_eq!(e.nul_position(), 5),
        other => panic!("not a terminator failure: {:?}", other),
    }
}

#[test]
fn the_position_of_a_zero_counts_bytes_in_narrow_form() {
    match "é\0".to_cstr() {
        Err(ConversionError::Nul(e)) => {
            assert_eq!(e.nul_position(), 2);
            assert_eq!(e.into_vec(), vec![0xC3u8, 0xA9, 0x00]);
        }
        other => panic!("not a terminator failure: {:?}", other),
    }
}

#[test]
fn text_with_a_zero_has_no_16_bit_form() {
    match "\u{1F980}\0x".to_ucstr16() {
        Err(ConversionError::Nul(e)) => {
            assert_eq!(e.nul_position(), 2);
            assert_eq!(e.into_vec(), vec![0xD83Eu16, 0xDD80, 0x0000, 0x0078]);
        }
        other => panic!("not a terminator failure: {:?}", other),
    }
}

#[test]
fn text_with_a_zero_has_no_32_bit_form() {
    match "\u{1F980}\0x".to_ucstr32() {
        Err(ConversionError::Nul(e)) => {
            assert_eq!(e.nul_position(), 1);
            assert_eq!(e.into_vec(), vec![0x1F980u32, 0x0000, 0x0078]);
        }
        other => panic!("not a terminator failure: {:?}", other),
    }
}

#[test]
fn a_string_with_a_zero_is_rejected_as_its_str_is() {
    let owned = String::from("a\0");
    assert!(matches!(owned.to_cstr(), Err(ConversionError::Nul(_))));
    assert!(matches!(owned.to_ucstr16(), Err(ConversionError::Nul(_))));
    assert!(matches!(owned.to_ucstr32(), Err(ConversionError::Nul(_))));
}

#[test]
fn a_lone_high_surrogate_has_no_text() {
    let w = Utf16CString::new(vec![0xD800, 0x0041]).unwrap();
    assert!(matches!(
        UnivString::to_string(&w),
        Err(ConversionError::InvalidUChar16(_))
    ));
}

#[test]
fn a_high_surrogate_at_the_end_has_no_text() {
    let w = Utf16CString::new(vec![0x0041, 0xDBFF]).unwrap();
    assert!(matches!(
        UnivString::to_string(&w),
        Err(ConversionError::InvalidUChar16(_))
    ));
}

#[test]
fn a_high_surrogate_before_another_has_no_text() {
    let w = Utf16CString::new(vec![0xD83E, 0xD83E, 0xDD80]).unwrap();
    assert!(matches!(
        UnivString::to_string(&w),
        Err(ConversionError::InvalidUChar16(_))
    ));
}

#[test]
fn a_lone_low_surrogate_has_no_text() {
    let w = Utf16CString::new(vec![0x0041, 0xDC00, 0x0042]).unwrap();
    assert!(matches!(
        UnivString::to_string(&w),
        Err(ConversionError::InvalidUChar16(_))
    ));
    let swapped = Utf16CString::new(vec![0xDD80, 0xD83E]).unwrap();
    assert!(matches!(
        UnivString::to_string(&swapped),
        Err(ConversionError::InvalidUChar16(_))
    ));
}

#[test]
fn ill_formed_16_bit_units_convert_to_nothing() {
    let w = Utf16CString::new(vec![0xD800, 0x0041]).unwrap();
    assert!(matches!(w.to_cstr(), Err(ConversionError::InvalidUChar16(_))));
    assert!(matches!(w.to_ucstr32(), Err(ConversionError::InvalidUChar16(_))));
}

#[test]
fn a_value_above_the_scalars_has_no_text() {
    let w = Utf32CString::new(vec![0x0041, 0x110000]).unwrap();
    assert!(matches!(
        UnivString::to_string(&w),
        Err(ConversionError::InvalidUChar32(_))
    ));
}

#[test]
fn a_surrogate_value_has_no_text_in_32_bits() {
    let w = Utf32CString::new(vec![0xD800]).unwrap();
    assert!(matches!(
        UnivString::to_string(&w),
        Err(ConversionError::InvalidUChar32(_))
    ));
    let last = Utf32CString::new(vec![0xDFFF]).unwrap();
    assert!(matches!(
        UnivString::to_string(&last),
        Err(ConversionError::InvalidUChar32(_))
    ));
    let largest = Utf32CString::new(vec![0xFFFF_FFFF]).unwrap();
    assert!(matches!(
        UnivString::to_string(&largest),
        Err(ConversionError::InvalidUChar32(_))
    ));
}

#[test]
fn ill_formed_32_bit_units_convert_to_nothing() {
    let w = Utf32CString::new(vec![0x110000]).unwrap();
    assert!(matches!(w.to_cstr(), Err(ConversionError::InvalidUChar32(_))));
    assert!(matches!(w.to_ucstr16(), Err(ConversionError::InvalidUChar32(_))));
}

#[test]
fn the_scalars_next_to_the_gaps_have_text() {
    let w = Utf32CString::new(vec![0xD7FF, 0xE000, 0x10FFFF]).unwrap();
    assert_eq!(
        &*UnivString::to_string(&w).unwrap(),
        "\u{D7FF}\u{E000}\u{10FFFF}"
    );
}

#[test]
fn narrow_bytes_that_are_no_utf8_have_no_text() {
    let stray_continuation = NarrowCString::new(vec![0x80]).unwrap();
    assert!(matches!(
        UnivString::to_string(&stray_continuation),
        Err(ConversionError::InvalidChar(_))
    ));
    let cut_short = NarrowCString::new(vec![0x48, 0xE4, 0xB8]).unwrap();
    assert!(matches!(
        UnivString::to_string(&cut_short),
        Err(ConversionError::InvalidChar(_))
    ));
    let overlong = NarrowCString::new(vec![0xC0, 0xAF]).unwrap();
    assert!(matches!(
        UnivString::to_string(&overlong),
        Err(ConversionError::InvalidChar(_))
    ));
    let surrogate = NarrowCString::new(vec![0xED, 0xA0, 0x80]).unwrap();
    assert!(matches!(
        UnivString::to_string(&surrogate),
        Err(ConversionError::InvalidChar(_))
    ));
    let too_large = NarrowCString::new(vec![0xF4, 0x90, 0x80, 0x80]).unwrap();
    assert!(matches!(
        UnivString::to_string(&too_large),
        Err(ConversionError::InvalidChar(_))
    ));
}

#[test]
fn ill_formed_narrow_bytes_convert_to_nothing() {
    let c = NarrowCString::new(vec![0xFF, 0x41]).unwrap();
    assert!(matches!(c.to_ucstr16(), Err(ConversionError::InvalidChar(_))));
    assert!(matches!(c.to_ucstr32(), Err(ConversionError::InvalidChar(_))));
}
