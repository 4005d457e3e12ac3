use univstring::unit::{find_nul, Unit};
use univstring::{
    ConversionError, NarrowCString, Terminated, UnivString, Utf16CString, Utf32CString,
};

#[test]
fn new_appends_the_terminator() {
    let s = NarrowCString::new(vec![1, 2, 3]).unwrap();
    assert_eq!(s.as_slice(), &[1u8, 2, 3][..]);
    assert_eq!(s.as_slice_with_nul(), &[1u8, 2, 3, 0][..]);
    assert_eq!(s.len(), 3);
}

#[test]
fn new_of_nothing_is_a_lone_terminator() {
    let s = Utf16CString::new(Vec::new()).unwrap();
    assert_eq!(s.len(), 0);
    assert_eq!(s.as_slice(), &[0u16; 0][..]);
    assert_eq!(s.as_slice_with_nul(), &[0u16][..]);
    assert_eq!(s.into_vec_with_nul(), vec![0u16]);
}

#[test]
fn new_rejects_a_terminator_among_the_units() {
    let e = Utf32CString::new(vec![7, 0, 9, 0]).unwrap_err();
    assert_eq!(e.nul_position(), 1);
    assert_eq!(e.into_vec(), vec![7u32, 0, 9, 0]);
}

#[test]
fn new_rejects_a_terminator_at_the_end() {
    let e = NarrowCString::new(vec![7, 9, 0]).unwrap_err();
    assert_eq!(e.nul_position(), 2);
    let only = Utf16CString::new(vec![0]).unwrap_err();
    assert_eq!(only.nul_position(), 0);
}

#[test]
fn into_vec_leaves_the_terminator_out() {
    let s = Utf16CString::new(vec![0xD800, 0x41]).unwrap();
    assert_eq!(s.into_vec(), vec![0xD800u16, 0x41]);
}

#[test]
fn into_vec_with_nul_keeps_the_terminator() {
    let s = Utf32CString::new(vec![0x110000, 0x41]).unwrap();
    assert_eq!(s.into_vec_with_nul(), vec![0x110000u32, 0x41, 0]);
}

#[test]
fn a_clone_holds_the_same_units_elsewhere() {
    let s = NarrowCString::new(vec![1, 2, 3]).unwrap();
    let t = s.clone();
    assert_eq!(t.as_slice_with_nul(), s.as_slice_with_nul());
    assert!(!std::ptr::eq(t.as_slice().as_ptr(), s.as_slice().as_ptr()));
}

#[test]
fn terminated_works_for_each_unit_width() {
    let a: Terminated<u8> = Terminated::new(vec![0xFF]).unwrap();
    let b: Terminated<u16> = Terminated::new(vec![0xFFFF]).unwrap();
    let c: Terminated<u32> = Terminated::new(vec![0xFFFF_FFFF]).unwrap();
    assert_eq!(a.as_slice_with_nul(), &[0xFFu8, 0][..]);
    assert_eq!(b.as_slice_with_nul(), &[0xFFFFu16, 0][..]);
    assert_eq!(c.as_slice_with_nul(), &[0xFFFF_FFFFu32, 0][..]);
}

#[test]
fn find_nul_gives_the_first_terminator() {
    assert_eq!(find_nul(&[1u8, 2, 3][..]), None);
    assert_eq!(find_nul(&[0u8; 0][..]), None);
    assert_eq!(find_nul(&[0u8][..]), Some(0));
    assert_eq!(find_nul(&[5u16, 0, 0][..]), Some(1));
    assert_eq!(find_nul(&[5u32, 6, 7, 0][..]), Some(3));
}

#[test]
fn the_terminator_of_each_width_is_zero() {
    assert_eq!(<u8 as Unit>::nul(), 0u8);
    assert_eq!(<u16 as Unit>::nul(), 0u16);
    assert_eq!(<u32 as Unit>::nul(), 0u32);
    assert!(0u8.is_nul());
    assert!(0u16.is_nul());
    assert!(0u32.is_nul());
    assert!(!1u8.is_nul());
    assert!(!0x100u16.is_nul());
    assert!(!0x10000u32.is_nul());
}

#[test]
fn each_kind_of_failure_has_its_description() {
    let nul = "a\0".to_cstr().unwrap_err();
    assert!(matches!(nul, ConversionError::Nul(_)));
    assert_eq!(nul.description(), "Null character found in string");
    let narrow = NarrowCString::new(vec![0xFF]).unwrap();
    let invalid8 = UnivString::to_string(&narrow).unwrap_err();
    assert_eq!(invalid8.description(), "Invalid charcode for UTF-8");
    let wide16 = Utf16CString::new(vec![0xD800]).unwrap();
    let invalid16 = UnivString::to_string(&wide16).unwrap_err();
    assert_eq!(
        invalid16.description(),
        "Couldn't convert UTF-16 charcode to UTF-8"
    );
    let wide32 = Utf32CString::new(vec![0x110000]).unwrap();
    let invalid32 = UnivString::to_string(&wide32).unwrap_err();
    assert_eq!(
        invalid32.description(),
        "Couldn't convert UTF-32 charcode to UTF-8"
    );
}
