//! Equality and order of containers, decided on views of their data.
use crate::compare::{ReferenceOrd, ReferencePartialEq, ReferencePartialOrd};
use crate::koe::Koe;
use crate::reference::{Referencable, Reference};
use core::cmp::Ordering;
use vstd::prelude::*;
use vstd::std_specs::cmp::{PartialEqSpec, PartialOrdSpec};

verus! {

impl<B1, O1, B2, O2> PartialEq<Koe<B2, O2>> for Koe<B1, O1> where
    B1: Copy + for<'b> Reference<'b> + ReferencePartialEq<B2>,
    B2: Copy + for<'b> Reference<'b> + View<V = B1::V>,
    O1: Referencable<B1>,
    O2: Referencable<B2>,
{
    /// Whether the two containers read as the same data.
    fn eq(&self, other: &Koe<B2, O2>) -> (r: bool) {
        let this = self.borrow();
        let other = other.borrow();
        B1::eq(this, other)
    }
}

impl<B1, O1, B2, O2> vstd::std_specs::cmp::PartialEqSpecImpl<Koe<B2, O2>> for Koe<B1, O1> where
    B1: Copy + for<'b> Reference<'b> + ReferencePartialEq<B2>,
    B2: Copy + for<'b> Reference<'b> + View<V = B1::V>,
    O1: Referencable<B1>,
    O2: Referencable<B2>,
{
    open spec fn obeys_eq_spec() -> bool {
        true
    }

    open spec fn eq_spec(&self, other: &Koe<B2, O2>) -> bool {
        self@ == other@
    }
}

impl<B, O> Eq for Koe<B, O> where
    B: Copy + for<'b> Reference<'b> + ReferencePartialEq<B>,
    O: Referencable<B>,
{

}

impl<B1, O1, B2, O2> PartialOrd<Koe<B2, O2>> for Koe<B1, O1> where
    B1: Copy + for<'b> Reference<'b> + ReferencePartialEq<B2> + ReferencePartialOrd<B2>,
    B2: Copy + for<'b> Reference<'b> + View<V = B1::V>,
    O1: Referencable<B1>,
    O2: Referencable<B2>,
{
    /// How the data of `self` stands to the data of `other`.
    fn partial_cmp(&self, other: &Koe<B2, O2>) -> (r: Option<Ordering>) {
        let this = self.borrow();
        let other = other.borrow();
        B1::partial_cmp(this, other)
    }
}

impl<B1, O1, B2, O2> vstd::std_specs::cmp::PartialOrdSpecImpl<Koe<B2, O2>> for Koe<B1, O1> where
    B1: Copy + for<'b> Reference<'b> + ReferencePartialEq<B2> + ReferencePartialOrd<B2>,
    B2: Copy + for<'b> Reference<'b> + View<V = B1::V>,
    O1: Referencable<B1>,
    O2: Referencable<B2>,
{
    open spec fn obeys_partial_cmp_spec() -> bool {
        true
    }

    open spec fn partial_cmp_spec(&self, other: &Koe<B2, O2>) -> Option<Ordering> {
        B1::data_partial_cmp(self@, other@)
    }
}

impl<B, O> Koe<B, O> where
    B: Copy + for<'b> Reference<'b> + ReferenceOrd<B>,
    O: Referencable<B>,
{
    /// How the data of `self` stands to the data of `other` in the total
    /// order of the view type.
    pub fn cmp(&self, other: &Koe<B, O>) -> (r: Ordering)
        ensures
            r == B::data_cmp(self@, other@),
    {
        let this = self.borrow();
        let other = other.borrow();
        B::cmp(this, other)
    }
}

/// Every container is equal to itself.
pub proof fn lemma_eq_reflexive<B, O>(koe: Koe<B, O>) where
    B: Copy + for<'b> Reference<'b> + ReferencePartialEq<B>,
    O: Referencable<B>,

    ensures
        koe.eq_spec(&koe),
{
}

/// Containers of the same data are equal, in either direction, whichever
/// variant each of them is.
pub proof fn lemma_eq_same_data<B1, O1, B2, O2>(left: Koe<B1, O1>, right: Koe<B2, O2>) where
    B1: Copy + for<'b> Reference<'b> + ReferencePartialEq<B2>,
    B2: Copy + for<'b> Reference<'b> + ReferencePartialEq<B1> + View<V = B1::V>,
    O1: Referencable<B1>,
    O2: Referencable<B2>,

    requires
        left@ == right@,
    ensures
        left.eq_spec(&right),
        right.eq_spec(&left),
{
}

/// Equality of containers is symmetric.
pub proof fn lemma_eq_symmetric<B1, O1, B2, O2>(left: Koe<B1, O1>, right: Koe<B2, O2>) where
    B1: Copy + for<'b> Reference<'b> + ReferencePartialEq<B2>,
    B2: Copy + for<'b> Reference<'b> + ReferencePartialEq<B1> + View<V = B1::V>,
    O1: Referencable<B1>,
    O2: Referencable<B2>,

    ensures
        left.eq_spec(&right) == right.eq_spec(&left),
{
}

/// Containers are equal in the partial order exactly when they are equal.
pub proof fn lemma_partial_cmp_equal<B1, O1, B2, O2>(left: Koe<B1, O1>, right: Koe<B2, O2>) where
    B1: Copy + for<'b> Reference<'b> + ReferencePartialEq<B2> + ReferencePartialOrd<B2>,
    B2: Copy + for<'b> Reference<'b> + View<V = B1::V>,
    O1: Referencable<B1>,
    O2: Referencable<B2>,

    ensures
        left.partial_cmp_spec(&right) == Some(Ordering::Equal) <==> left.eq_spec(&right),
{
    B1::lemma_data_partial_cmp_equal(left@, right@);
}

/// Containers are equal in the total order exactly when they are equal.
pub proof fn lemma_cmp_equal<B, O>(left: Koe<B, O>, right: Koe<B, O>) where
    B: Copy + for<'b> Reference<'b> + ReferencePartialEq<B> + ReferenceOrd<B>,
    O: Referencable<B>,

    ensures
        B::data_cmp(left@, right@) == Ordering::Equal <==> left.eq_spec(&right),
{
    B::lemma_data_cmp_equal(left@, right@);
}

} // verus!
