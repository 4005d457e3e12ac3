//! Zero-terminated strings of 8-bit, 16-bit and 32-bit units.
use crate::error::{NulAt, NulError};
use crate::unit::{find_nul, first_nul, is_first_nul, lemma_first_nul, Unit};
use vstd::prelude::*;
use vstd::slice::{slice_subrange, slice_to_vec};

verus! {

/// `units` is a terminated string as it lies in memory: it ends in the
/// terminator and holds no other.
pub open spec fn is_terminated<U: Unit>(units: Seq<U>) -> bool {
    &&& units.len() > 0
    &&& first_nul(units) == Some(units.len() - 1)
}

/// What stands before the terminator of a terminated string holds no
/// terminator.
pub proof fn lemma_payload_has_no_nul<U: Unit>(units: Seq<U>)
    requires
        is_terminated(units),
    ensures
        first_nul(units.drop_last()) is None,
        units == units.drop_last().push(U::nul_value()),
{
    let payload = units.drop_last();
    lemma_first_nul(units);
    lemma_first_nul(payload);
    if payload.contains(U::nul_value()) {
        let i = choose|i: int| 0 <= i < payload.len() && payload[i] == U::nul_value();
        assert(units[i] == U::nul_value());
    }
    assert(units =~= payload.push(U::nul_value()));
}

/// A payload without a terminator, with the terminator behind it, is a
/// terminated string.
pub proof fn lemma_terminate<U: Unit>(payload: Seq<U>)
    requires
        first_nul(payload) is None,
    ensures
        is_terminated(payload.push(U::nul_value())),
        payload.push(U::nul_value()).drop_last() == payload,
{
    let units = payload.push(U::nul_value());
    lemma_first_nul(payload);
    lemma_first_nul(units);
    assert(units.drop_last() =~= payload);
    assert forall|i: int| 0 <= i < payload.len() implies units[i] != U::nul_value() by {
        assert(payload.contains(payload[i]));
    }
    assert(is_first_nul(units, payload.len() as int));
}

/// A string of units that ends in a terminator and holds no other.
///
/// Its view is the payload: the units before the terminator.
#[derive(Debug)]
pub struct Terminated<U: Unit> {
    units: Vec<U>,
}

/// A terminated string of bytes, in no encoding of its own; read as text it
/// is taken for UTF-8.
pub type NarrowCString = Terminated<u8>;

/// A terminated string of 16-bit units, read as UTF-16.
pub type Utf16CString = Terminated<u16>;

/// A terminated string of 32-bit units, read as UTF-32.
pub type Utf32CString = Terminated<u32>;

impl<U: Unit> View for Terminated<U> {
    type V = Seq<U>;

    closed spec fn view(&self) -> Seq<U> {
        self.units@.drop_last()
    }
}

impl<U: Unit> Clone for Terminated<U> {
    fn clone(&self) -> (copy: Self)
        ensures
            copy@ == self@,
    {
        proof {
            use_type_invariant(self);
        }
        Terminated { units: slice_to_vec(self.units.as_slice()) }
    }
}

impl<U: Unit> Terminated<U> {
    #[verifier::type_invariant]
    spec fn well_formed(self) -> bool {
        is_terminated(self.units@)
    }

    /// Terminates `units`, unless one of them is the terminator.
    pub fn new(units: Vec<U>) -> (r: Result<Self, NulError<U>>)
        ensures
            match first_nul(units@) {
                Some(at) => r matches Err(e) && e@ == (NulAt { position: at, units: units@ }),
                None => r matches Ok(s) && s@ == units@,
            },
    {
        match find_nul(units.as_slice()) {
            Some(at) => {
                proof {
                    lemma_first_nul(units@);
                }
                Err(NulError::new(at, units))
            },
            None => {
                let ghost payload = units@;
                let mut units = units;
                units.push(U::nul());
                proof {
                    lemma_terminate(payload);
                }
                Ok(Terminated { units })
            },
        }
    }

    /// The number of units before the terminator.
    pub fn len(&self) -> (n: usize)
        ensures
            n == self@.len(),
    {
        proof {
            use_type_invariant(self);
        }
        self.units.len() - 1
    }

    /// The units before the terminator, none of which is the terminator.
    pub fn as_slice(&self) -> (units: &[U])
        ensures
            units@ == self@,
            first_nul(units@) is None,
    {
        proof {
            use_type_invariant(self);
            lemma_payload_has_no_nul(self.units@);
            assert(self.units@.subrange(0, self.units@.len() - 1) =~= self.units@.drop_last());
        }
        slice_subrange(self.units.as_slice(), 0, self.units.len() - 1)
    }

    /// The units with the terminator behind them.
    pub fn as_slice_with_nul(&self) -> (units: &[U])
        ensures
            units@ == self@.push(U::nul_value()),
            is_terminated(units@),
    {
        proof {
            use_type_invariant(self);
            lemma_payload_has_no_nul(self.units@);
        }
        self.units.as_slice()
    }

    /// The units before the terminator, none of which is the terminator.
    pub fn into_vec(self) -> (units: Vec<U>)
        ensures
            units@ == self@,
            first_nul(units@) is None,
    {
        proof {
            use_type_invariant(&self);
            lemma_payload_has_no_nul(self.units@);
        }
        let mut units = self.units;
        units.pop();
        units
    }

    /// The units with the terminator behind them.
    pub fn into_vec_with_nul(self) -> (units: Vec<U>)
        ensures
            units@ == self@.push(U::nul_value()),
            is_terminated(units@),
    {
        proof {
            use_type_invariant(&self);
            lemma_payload_has_no_nul(self.units@);
        }
        self.units
    }
}

} // verus!
