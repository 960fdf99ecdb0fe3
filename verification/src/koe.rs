//! The clone-on-write container.
use crate::reference::{Narrowed, NotSame, Referencable, Reference};
use vstd::pervasive::unreached;
use vstd::prelude::*;

verus! {

/// Either a view of data that is owned elsewhere, or an owner of the data.
///
/// A container is made as either variant. It turns from `Borrowed` into
/// `Owned` when mutable access is first asked for, and does not turn back.
///
/// The model `@` of a container is the data that it reads as.
#[derive(Debug)]
pub enum Koe<B, O> where B: Copy + for<'b> Reference<'b>, O: Referencable<B> {
    Borrowed(B),
    Owned(O),
}

impl<B, O> View for Koe<B, O> where B: Copy + for<'b> Reference<'b>, O: Referencable<B> {
    type V = B::V;

    open spec fn view(&self) -> Self::V {
        match self {
            Koe::Borrowed(b) => b@,
            Koe::Owned(o) => o@,
        }
    }
}

impl<B, O> Clone for Koe<B, O> where B: Copy + for<'b> Reference<'b>, O: Clone + Referencable<B> {
    /// A container of the same variant: with the same view, or with a clone
    /// of the owner.
    fn clone(&self) -> (copy: Self)
        ensures
            match *self {
                Koe::Borrowed(b) => copy == Koe::<B, O>::Borrowed(b),
                Koe::Owned(o) => copy is Owned && cloned(o, copy->Owned_0),
            },
    {
        match self {
            Koe::Borrowed(b) => Koe::Borrowed(*b),
            Koe::Owned(o) => Koe::Owned(o.clone()),
        }
    }
}

impl<B, O> Koe<B, O> where B: Copy + for<'b> Reference<'b>, O: Referencable<B>, (B, O): NotSame {
    /// A container that holds the view `view`.
    pub fn from_borrowed(view: B) -> (koe: Self)
        ensures
            koe == Koe::<B, O>::Borrowed(view),
    {
        Koe::Borrowed(view)
    }

    /// A container that holds the owner `owner`.
    pub fn from_owned(owner: O) -> (koe: Self)
        ensures
            koe == Koe::<B, O>::Owned(owner),
    {
        Koe::Owned(owner)
    }
}

impl<'a, B, O> Koe<B, O> where B: Copy + for<'b> Reference<'b>, O: Referencable<B> {
    /// Whether `owner` is the owner that the container gives when one is asked
    /// of it: the owner that it holds, or else a copy made from the view that
    /// it holds.
    pub open spec fn yields_owner(self, owner: O) -> bool {
        match self {
            Koe::Borrowed(b) => call_ensures(O::from_ref, (&b,), owner),
            Koe::Owned(o) => owner == o,
        }
    }

    /// Whether `view` is the view that the container gives of its data: the
    /// view that it holds, under the window `'v`, or else one borrowed from the
    /// owner that it holds.
    pub open spec fn yields_view<'v>(self, view: Narrowed<'v, B>) -> bool {
        match self {
            Koe::Borrowed(b) => view == <B as Reference<'v>>::narrowed(b),
            Koe::Owned(o) => call_ensures(O::borrow, (&o,), view),
        }
    }

    /// Stores `value` as the owner and hands out mutable access to it.
    pub fn move_into(&mut self, value: O) -> (owner: &mut O)
        ensures
            *owner == value,
            *final(self) == Koe::<B, O>::Owned(*final(owner)),
    {
        *self = Koe::Owned(value);
        match self {
            Koe::Borrowed(_) => unreached(),
            Koe::Owned(owned) => owned,
        }
    }

    /// Mutable access to the owner. A container that holds a view first turns
    /// into one that holds a copy of the viewed data. One that holds an owner
    /// hands out that owner as it is, without a copy.
    ///
    /// Afterwards the container holds, as its owner, whatever the caller has
    /// left behind the returned reference.
    pub fn to_mut<'b>(&'b mut self) -> (owner: &'b mut O) where 'a: 'b
        ensures
            old(self).yields_owner(*owner),
            owner@ == old(self)@,
            *final(self) == Koe::<B, O>::Owned(*final(owner)),
    {
        let value = match self {
            Koe::Borrowed(b) => O::from_ref(b),
            Koe::Owned(o) => return o,
        };
        self.move_into(value)
    }

    /// A view of the container's data, valid as long as the borrow of `self`.
    /// Nothing is copied: a held view is handed on under the shorter window,
    /// and a held owner is borrowed from.
    pub fn borrow<'b>(&'b self) -> (view: Narrowed<'b, B>) where 'a: 'b
        ensures
            self.yields_view(view),
            view@ == self@,
    {
        match self {
            Koe::Borrowed(b) => {
                proof {
                    <B as Reference<'b>>::lemma_narrowed_data(*b);
                }
                O::reborrow(b)
            },
            Koe::Owned(o) => O::borrow(o),
        }
    }

    /// Whether the container holds a view.
    pub fn is_borrowed(&self) -> (r: bool)
        ensures
            r == (self is Borrowed),
    {
        match self {
            Koe::Borrowed(_) => true,
            Koe::Owned(_) => false,
        }
    }

    /// Whether the container holds an owner.
    pub fn is_owned(&self) -> (r: bool)
        ensures
            r == (self is Owned),
    {
        !self.is_borrowed()
    }

    /// The owner of the container's data: the owner that the container holds,
    /// as it is, or else a copy made from the view that it holds.
    pub fn into_owner(self) -> (owner: O)
        ensures
            self.yields_owner(owner),
            owner@ == self@,
    {
        match self {
            Koe::Borrowed(b) => O::from_ref(&b),
            Koe::Owned(o) => o,
        }
    }
}

/// Mutable access copies at most once.
///
/// Where a container that holds a view hands out `first`, that is the one copy
/// made from the view. The container then holds what the caller has made of
/// it, `left`, and mutable access asked for again is to `left` itself.
pub proof fn lemma_to_mut_copies_once<B, O>(
    koe: Koe<B, O>,
    first: O,
    left: O,
    after: Koe<B, O>,
    second: O,
) where B: Copy + for<'b> Reference<'b>, O: Referencable<B>
    requires
        koe is Borrowed,
        koe.yields_owner(first),
        after == Koe::<B, O>::Owned(left),
        after.yields_owner(second),
    ensures
        call_ensures(O::from_ref, (&koe->Borrowed_0,), first),
        first@ == koe@,
        second == left,
{
}

} // verus!
