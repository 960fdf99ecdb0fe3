//! Equality and order of views, across the members of one family of view
//! types.
//!
//! The two views of a comparison are first brought under one validity window.
//! Comparison then goes by the data that the views describe.
use crate::reference::{Narrowed, Reference};
use core::cmp::Ordering;
use vstd::prelude::*;

verus! {

/// Trait to compare Reference implementors for equality.
///
/// Two views are equal when they describe the same data.
pub trait ReferencePartialEq<Other>: Copy + for<'a> Reference<'a> where
    Other: Copy + for<'a> Reference<'a> + View<V = Self::V>,
{
    /// Whether `a` and `b` describe the same data.
    fn eq<'a>(a: Narrowed<'a, Self>, b: Narrowed<'a, Other>) -> (r: bool)
        ensures
            r == (a@ == b@),
    ;
}

/// Trait to compare Reference implementors with each other.
///
/// The order is one of the described data, and `data_partial_cmp` says which.
pub trait ReferencePartialOrd<Other>: Copy + for<'a> Reference<'a> where
    Other: Copy + for<'a> Reference<'a> + View<V = Self::V>,
{
    /// How the data `a`, described by a view of `Self`, stands to the data
    /// `b`, described by a view of `Other`.
    spec fn data_partial_cmp(a: Self::V, b: Self::V) -> Option<Ordering>;

    /// Data is equal in the order exactly when it is the same data.
    proof fn lemma_data_partial_cmp_equal(a: Self::V, b: Self::V)
        ensures
            Self::data_partial_cmp(a, b) == Some(Ordering::Equal) <==> a == b,
    ;

    /// How the data of `a` stands to the data of `b`.
    fn partial_cmp<'a>(a: Narrowed<'a, Self>, b: Narrowed<'a, Other>) -> (r: Option<Ordering>)
        ensures
            r == Self::data_partial_cmp(a@, b@),
    ;
}

/// Trait to compare Reference implementors with each other.
///
/// The order is one of the described data, and `data_cmp` says which.
pub trait ReferenceOrd<Other>: Copy + for<'a> Reference<'a> where
    Other: Copy + for<'a> Reference<'a>,
{
    /// How the data `a` stands to the data `b`, both described by views of
    /// `Self`.
    spec fn data_cmp(a: Self::V, b: Self::V) -> Ordering;

    /// Data is equal in the order exactly when it is the same data.
    proof fn lemma_data_cmp_equal(a: Self::V, b: Self::V)
        ensures
            Self::data_cmp(a, b) == Ordering::Equal <==> a == b,
    ;

    /// How the data of `a` stands to the data of `b`.
    fn cmp<'a>(a: Narrowed<'a, Self>, b: Narrowed<'a, Self>) -> (r: Ordering)
        ensures
            r == Self::data_cmp(a@, b@),
    ;
}

} // verus!
