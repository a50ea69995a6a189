use vstd::prelude::*;

verus! {

use core::cmp::Ordering;
use vstd::std_specs::cmp::PartialEqSpec;
use vstd::std_specs::cmp::PartialOrdSpec;

/// A value that is exactly one of two alternatives, `Left` or `Right`,
/// each holding one value of the same type `T`. The variant is fixed at
/// construction; the four methods only inspect it or move the value out.
#[derive(Debug, Eq, Ord, Hash, Clone, Copy)]
pub enum OneOff<T> {
    Left(T),
    Right(T),
}

impl<T> OneOff<T> {
    /// Returns the contained value if this is a `Left`, and `None` otherwise.
    /// Consumes the value: ownership of the payload moves to the caller.
    pub fn left(self) -> (r: Option<T>)
        ensures
            self matches OneOff::Left(t) ==> r == Some(t),
            self is Right ==> r is None,
    {
        match self {
            OneOff::Left(t) => Some(t),
            OneOff::Right(_) => None,
        }
    }

    /// Returns the contained value if this is a `Right`, and `None` otherwise.
    /// Consumes the value: ownership of the payload moves to the caller.
    pub fn right(self) -> (r: Option<T>)
        ensures
            self matches OneOff::Right(t) ==> r == Some(t),
            self is Left ==> r is None,
    {
        match self {
            OneOff::Left(_) => None,
            OneOff::Right(t) => Some(t),
        }
    }

    /// Returns true exactly when the active variant is `Left`.
    pub fn is_left(&self) -> (r: bool)
        ensures
            r == (self is Left),
    {
        match self {
            OneOff::Left(_) => true,
            OneOff::Right(_) => false,
        }
    }

    /// Returns true exactly when the active variant is `Right`.
    pub fn is_right(&self) -> (r: bool)
        ensures
            r == (self is Right),
    {
        match self {
            OneOff::Left(_) => false,
            OneOff::Right(_) => true,
        }
    }
}

impl<T: PartialEq> PartialEq for OneOff<T> {
    fn eq(&self, other: &Self) -> (r: bool) {
        match (self, other) {
            (OneOff::Left(a), OneOff::Left(b)) => a == b,
            (OneOff::Right(a), OneOff::Right(b)) => a == b,
            _ => false,
        }
    }
}

impl<T: PartialEq> vstd::std_specs::cmp::PartialEqSpecImpl for OneOff<T> {
    open spec fn obeys_eq_spec() -> bool {
        T::obeys_eq_spec()
    }

    open spec fn eq_spec(&self, other: &Self) -> bool {
        match (self, other) {
            (OneOff::Left(a), OneOff::Left(b)) => a.eq_spec(b),
            (OneOff::Right(a), OneOff::Right(b)) => a.eq_spec(b),
            _ => false,
        }
    }
}

impl<T: PartialOrd> PartialOrd for OneOff<T> {
    fn partial_cmp(&self, other: &Self) -> (r: Option<Ordering>) {
        match (self, other) {
            (OneOff::Left(a), OneOff::Left(b)) => a.partial_cmp(b),
            (OneOff::Left(_), OneOff::Right(_)) => Some(Ordering::Less),
            (OneOff::Right(_), OneOff::Left(_)) => Some(Ordering::Greater),
            (OneOff::Right(a), OneOff::Right(b)) => a.partial_cmp(b),
        }
    }
}

impl<T: PartialOrd> vstd::std_specs::cmp::PartialOrdSpecImpl for OneOff<T> {
    open spec fn obeys_partial_cmp_spec() -> bool {
        T::obeys_partial_cmp_spec()
    }

    open spec fn partial_cmp_spec(&self, other: &Self) -> Option<Ordering> {
        match (self, other) {
            (OneOff::Left(a), OneOff::Left(b)) => a.partial_cmp_spec(b),
            (OneOff::Left(_), OneOff::Right(_)) => Some(Ordering::Less),
            (OneOff::Right(_), OneOff::Left(_)) => Some(Ordering::Greater),
            (OneOff::Right(a), OneOff::Right(b)) => a.partial_cmp_spec(b),
        }
    }
}

/// Law: the variant is the primary sort key. A `Left` compares below a
/// `Right` whatever the two contained values are.
pub proof fn lemma_left_ranks_before_right<T: PartialOrd>(v1: T, v2: T)
    ensures
        OneOff::Left(v1).partial_cmp_spec(&OneOff::Right(v2)) == Some(Ordering::Less),
        OneOff::Right(v2).partial_cmp_spec(&OneOff::Left(v1)) == Some(Ordering::Greater),
{
}

/// Law: when the variants agree, the comparison is exactly that of the two
/// contained values.
pub proof fn lemma_same_variant_orders_by_value<T: PartialOrd>(v1: T, v2: T)
    ensures
        OneOff::Left(v1).partial_cmp_spec(&OneOff::Left(v2)) == v1.partial_cmp_spec(&v2),
        OneOff::Right(v1).partial_cmp_spec(&OneOff::Right(v2)) == v1.partial_cmp_spec(&v2),
{
}

/// Law: equality follows the variant and the contained value together.
/// Values in the same variant are equal exactly when the contained values
/// are; values in different variants are never equal, even when the
/// contained values agree.
pub proof fn lemma_eq_by_variant_and_value<T: PartialEq>(v1: T, v2: T)
    ensures
        OneOff::Left(v1).eq_spec(&OneOff::Left(v2)) == v1.eq_spec(&v2),
        OneOff::Right(v1).eq_spec(&OneOff::Right(v2)) == v1.eq_spec(&v2),
        !OneOff::Left(v1).eq_spec(&OneOff::Right(v2)),
        !OneOff::Right(v1).eq_spec(&OneOff::Left(v2)),
{
}

/// Law: a value equals itself in either variant, and the two variants are
/// distinct values even over the same payload.
pub proof fn lemma_variants_distinct<T>(v: T)
    ensures
        OneOff::Left(v) == OneOff::Left(v),
        OneOff::Right(v) == OneOff::Right(v),
        OneOff::Left(v) != OneOff::Right(v),
{
}

} // verus!
