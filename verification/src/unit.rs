//! Code units, and where a sequence of them holds its first terminator.
use vstd::prelude::*;

verus! {

/// A code unit of a terminated string: an integer type whose zero ends the
/// string.
pub trait Unit: Copy + Sized {
    /// The unit that terminates a string.
    spec fn nul_value() -> Self;

    /// The unit that terminates a string.
    fn nul() -> (unit: Self)
        ensures
            unit == Self::nul_value(),
    ;

    /// Whether this unit is the terminator.
    fn is_nul(&self) -> (b: bool)
        ensures
            b == (*self == Self::nul_value()),
    ;
}

impl Unit for u8 {
    open spec fn nul_value() -> u8 {
        0u8
    }

    fn nul() -> (unit: u8) {
        0u8
    }

    fn is_nul(&self) -> (b: bool) {
        *self == 0u8
    }
}

impl Unit for u16 {
    open spec fn nul_value() -> u16 {
        0u16
    }

    fn nul() -> (unit: u16) {
        0u16
    }

    fn is_nul(&self) -> (b: bool) {
        *self == 0u16
    }
}

impl Unit for u32 {
    open spec fn nul_value() -> u32 {
        0u32
    }

    fn nul() -> (unit: u32) {
        0u32
    }

    fn is_nul(&self) -> (b: bool) {
        *self == 0u32
    }
}

/// A sequence holds `x` exactly if `x` is its first element or the rest holds
/// it.
pub proof fn lemma_contains_first_or_rest<A>(s: Seq<A>, x: A)
    requires
        s.len() > 0,
    ensures
        s.contains(x) <==> s[0] == x || s.drop_first().contains(x),
{
    if s.drop_first().contains(x) {
        let i = choose|i: int| 0 <= i < s.drop_first().len() && s.drop_first()[i] == x;
        assert(s[i + 1] == x);
    }
    if s.contains(x) && s[0] != x {
        let i = choose|i: int| 0 <= i < s.len() && s[i] == x;
        assert(s.drop_first()[i - 1] == x);
    }
}

/// The index of the first terminator among `units`, if there is one.
pub open spec fn first_nul<U: Unit>(units: Seq<U>) -> Option<int> {
    units.index_of_first(U::nul_value())
}

/// `at` is the index of the first terminator among `units`.
pub open spec fn is_first_nul<U: Unit>(units: Seq<U>, at: int) -> bool {
    &&& 0 <= at < units.len()
    &&& units[at] == U::nul_value()
    &&& forall|i: int| 0 <= i < at ==> units[i] != U::nul_value()
}

/// `first_nul` is `Some` of the one index that `is_first_nul` holds of, and
/// `None` exactly if no unit is the terminator.
pub proof fn lemma_first_nul<U: Unit>(units: Seq<U>)
    ensures
        match first_nul(units) {
            Some(at) => is_first_nul(units, at),
            None => !units.contains(U::nul_value()),
        },
        forall|at: int| is_first_nul(units, at) ==> first_nul(units) == Some(at),
{
    units.index_of_first_ensures(U::nul_value());
    assert forall|at: int| is_first_nul(units, at) implies first_nul(units) == Some(at) by {
        assert(units.contains(U::nul_value()));
    }
}

/// The index of the first terminator among `units`, if there is one.
pub fn find_nul<U: Unit>(units: &[U]) -> (found: Option<usize>)
    ensures
        first_nul(units@) == match found {
            Some(at) => Some(at as int),
            None => None::<int>,
        },
{
    let mut i: usize = 0;
    while i < units.len()
        invariant
            i <= units.len(),
            forall|j: int| 0 <= j < i ==> units@[j] != U::nul_value(),
        decreases units.len() - i,
    {
        if units[i].is_nul() {
            proof {
                lemma_first_nul(units@);
                assert(is_first_nul(units@, i as int));
            }
            return Some(i);
        }
        i += 1;
    }
    proof {
        lemma_first_nul(units@);
    }
    None
}

} // verus!
