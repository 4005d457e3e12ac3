//! Conversions between the string forms that meet at language and operating
//! system boundaries: UTF-8 text, and zero-terminated strings of 8-bit,
//! 16-bit and 32-bit units.
//!
//! Every conversion is stated over a mathematical model of the value at hand
//! ([`repr::Repr`]) and proved to return what the model prescribes: a borrow
//! where source and target are of one kind, a transcoded copy where they are
//! not, and the reason where no such copy exists.
pub mod codec;
pub mod error;
pub mod repr;
pub mod terminated;
pub mod unit;
pub mod univ;
pub mod utf16;
pub mod utf32;
pub mod utf8;
pub mod wide;

pub use crate::error::{ConversionError, ErrorKind, NulError};
pub use crate::terminated::{NarrowCString, Terminated, Utf16CString, Utf32CString};
pub use crate::univ::UnivString;
pub use crate::wide::{WideCStr, WideNulError, WideWidth};
