//! Why a conversion yields nothing.
use crate::unit::{is_first_nul, Unit};
use std::str::Utf8Error;
use std::string::FromUtf16Error;
use vstd::prelude::*;
use widestring::FromUtf32Error;

verus! {

/// What a [`NulError`] says: the units that were to be terminated, and where
/// the first terminator stands among them.
pub struct NulAt<U> {
    pub position: int,
    pub units: Seq<U>,
}

/// Units that cannot be terminated, because one of them is the terminator.
#[derive(Debug)]
pub struct NulError<U: Unit> {
    position: usize,
    units: Vec<U>,
}

impl<U: Unit> View for NulError<U> {
    type V = NulAt<U>;

    closed spec fn view(&self) -> NulAt<U> {
        NulAt { position: self.position as int, units: self.units@ }
    }
}

impl<U: Unit> NulError<U> {
    #[verifier::type_invariant]
    spec fn well_formed(self) -> bool {
        is_first_nul(self.units@, self.position as int)
    }

    /// The error for `units`, whose first terminator stands at `position`.
    pub(crate) fn new(position: usize, units: Vec<U>) -> (e: Self)
        requires
            is_first_nul(units@, position as int),
        ensures
            e@ == (NulAt { position: position as int, units: units@ }),
    {
        NulError { position, units }
    }

    /// The index of the first terminator among the units.
    pub fn nul_position(&self) -> (position: usize)
        ensures
            position == self@.position,
            is_first_nul(self@.units, position as int),
    {
        proof {
            use_type_invariant(self);
        }
        self.position
    }

    /// The units that were to be terminated.
    pub fn into_vec(self) -> (units: Vec<U>)
        ensures
            units@ == self@.units,
    {
        self.units
    }
}

/// The kinds of failure, with what is known of each: for a terminator
/// inside the units `N` says where; an ill-formed source says no more than
/// which encoding it breaks.
pub enum Failure<N> {
    Nul(N),
    InvalidChar,
    InvalidUChar16,
    InvalidUChar32,
}

/// Why a conversion yields nothing.
#[derive(Debug)]
pub enum ConversionError<NE> {
    /// The target is terminated and the units hold a terminator.
    Nul(NE),
    /// The source is a narrow string and no UTF-8.
    InvalidChar(Utf8Error),
    /// The source is a 16-bit string and no UTF-16.
    InvalidUChar16(FromUtf16Error),
    /// The source is a 32-bit string and no UTF-32.
    InvalidUChar32(FromUtf32Error),
}

impl<NE: View> View for ConversionError<NE> {
    type V = Failure<NE::V>;

    open spec fn view(&self) -> Failure<NE::V> {
        match self {
            ConversionError::Nul(e) => Failure::Nul(e@),
            ConversionError::InvalidChar(_) => Failure::InvalidChar,
            ConversionError::InvalidUChar16(_) => Failure::InvalidUChar16,
            ConversionError::InvalidUChar32(_) => Failure::InvalidUChar32,
        }
    }
}

/// The kind of a failure, without what the failure holds.
#[derive(Clone, Copy, Debug, PartialEq, Eq)]
pub enum ErrorKind {
    /// The target is terminated and the units hold a terminator.
    Nul,
    /// The source is a narrow string and no UTF-8.
    InvalidChar,
    /// The source is a 16-bit string and no UTF-16.
    InvalidUChar16,
    /// The source is a 32-bit string and no UTF-32.
    InvalidUChar32,
}

impl ErrorKind {
    /// The text of [`ErrorKind::description`].
    pub open spec fn description_text(self) -> Seq<char> {
        match self {
            ErrorKind::Nul => "Null character found in string"@,
            ErrorKind::InvalidChar => "Invalid charcode for UTF-8"@,
            ErrorKind::InvalidUChar16 => "Couldn't convert UTF-16 charcode to UTF-8"@,
            ErrorKind::InvalidUChar32 => "Couldn't convert UTF-32 charcode to UTF-8"@,
        }
    }

    /// One line on the kind of failure.
    pub fn description(self) -> (text: &'static str)
        ensures
            text@ == self.description_text(),
    {
        match self {
            ErrorKind::Nul => "Null character found in string",
            ErrorKind::InvalidChar => "Invalid charcode for UTF-8",
            ErrorKind::InvalidUChar16 => "Couldn't convert UTF-16 charcode to UTF-8",
            ErrorKind::InvalidUChar32 => "Couldn't convert UTF-32 charcode to UTF-8",
        }
    }
}

impl<N> Failure<N> {
    /// The kind of the failure.
    pub open spec fn kind(self) -> ErrorKind {
        match self {
            Failure::Nul(_) => ErrorKind::Nul,
            Failure::InvalidChar => ErrorKind::InvalidChar,
            Failure::InvalidUChar16 => ErrorKind::InvalidUChar16,
            Failure::InvalidUChar32 => ErrorKind::InvalidUChar32,
        }
    }
}

impl<NE> ConversionError<NE> {
    /// The kind of the failure.
    pub open spec fn spec_kind(&self) -> ErrorKind {
        match self {
            ConversionError::Nul(_) => ErrorKind::Nul,
            ConversionError::InvalidChar(_) => ErrorKind::InvalidChar,
            ConversionError::InvalidUChar16(_) => ErrorKind::InvalidUChar16,
            ConversionError::InvalidUChar32(_) => ErrorKind::InvalidUChar32,
        }
    }

    /// The kind of the failure.
    #[verifier::when_used_as_spec(spec_kind)]
    pub fn kind(&self) -> (kind: ErrorKind)
        ensures
            kind == self.spec_kind(),
    {
        match self {
            ConversionError::Nul(_) => ErrorKind::Nul,
            ConversionError::InvalidChar(_) => ErrorKind::InvalidChar,
            ConversionError::InvalidUChar16(_) => ErrorKind::InvalidUChar16,
            ConversionError::InvalidUChar32(_) => ErrorKind::InvalidUChar32,
        }
    }

    /// One line on the kind of failure.
    pub fn description(&self) -> (text: &'static str)
        ensures
            text@ == self.kind().description_text(),
    {
        self.kind().description()
    }
}

impl<NE> vstd::std_specs::convert::FromSpecImpl<Utf8Error> for ConversionError<NE> {
    open spec fn obeys_from_spec() -> bool {
        true
    }

    open spec fn from_spec(e: Utf8Error) -> Self {
        ConversionError::InvalidChar(e)
    }
}

impl<NE> From<Utf8Error> for ConversionError<NE> {
    fn from(e: Utf8Error) -> (r: Self) {
        ConversionError::InvalidChar(e)
    }
}

impl<NE> vstd::std_specs::convert::FromSpecImpl<FromUtf16Error> for ConversionError<NE> {
    open spec fn obeys_from_spec() -> bool {
        true
    }

    open spec fn from_spec(e: FromUtf16Error) -> Self {
        ConversionError::InvalidUChar16(e)
    }
}

impl<NE> From<FromUtf16Error> for ConversionError<NE> {
    fn from(e: FromUtf16Error) -> (r: Self) {
        ConversionError::InvalidUChar16(e)
    }
}

impl<NE> vstd::std_specs::convert::FromSpecImpl<FromUtf32Error> for ConversionError<NE> {
    open spec fn obeys_from_spec() -> bool {
        true
    }

    open spec fn from_spec(e: FromUtf32Error) -> Self {
        ConversionError::InvalidUChar32(e)
    }
}

impl<NE> From<FromUtf32Error> for ConversionError<NE> {
    fn from(e: FromUtf32Error) -> (r: Self) {
        ConversionError::InvalidUChar32(e)
    }
}

impl<U: Unit> vstd::std_specs::convert::FromSpecImpl<NulError<U>> for ConversionError<NulError<U>> {
    open spec fn obeys_from_spec() -> bool {
        true
    }

    open spec fn from_spec(e: NulError<U>) -> Self {
        ConversionError::Nul(e)
    }
}

impl<U: Unit> From<NulError<U>> for ConversionError<NulError<U>> {
    fn from(e: NulError<U>) -> (r: Self) {
        ConversionError::Nul(e)
    }
}

} // verus!
