//! Views with a validity window, and owners that hand them out.
use vstd::prelude::*;

verus! {

/// Marker for a pair `(B, O)` of a view type and an owner type that are two
/// different types. Whoever pairs the two types implements it for the pair.
pub trait NotSame {

}

/// Abstract notion of a reference: a cheap, copyable view of data that its
/// holder does not own.
///
/// A view is valid within a window, which is a lifetime. `Reference<'a>` gives
/// the type that the same view has under the window `'a`, so that a view can
/// be handed on under a shorter window than the one it was made with.
///
/// The model `@` of a view is the data that it describes. All members of one
/// family of view types describe data of the same model type.
pub trait Reference<'a>: Copy + View {
    /// The type of the same view under the validity window `'a`.
    type Type: Copy + View<V = <Self as View>::V>;

    /// This view as it is under the validity window `'a`. Only the window
    /// changes: an implementor whose types differ in nothing but the window
    /// defines it as `self`.
    spec fn narrowed(self) -> Self::Type;

    /// A view under another window describes the same data.
    proof fn lemma_narrowed_data(self)
        ensures
            self.narrowed()@ == self@,
    ;
}

/// The view type `B` under the validity window `'a`.
pub type Narrowed<'a, B> = <B as Reference<'a>>::Type;

impl<'a, 'n, T: 'a + View> Reference<'a> for &'n T {
    type Type = &'a T;

    open spec fn narrowed(self) -> &'a T {
        self
    }

    proof fn lemma_narrowed_data(self) {
    }
}

/// Abstraction of an owning thing that can be borrowed from.
///
/// The model `@` of an owner is the data that it owns, of the model type of
/// its views.
pub trait Referencable<Borrowed>: Sized + View<V = <Borrowed as View>::V> where
    Borrowed: Copy + for<'b> Reference<'b>,
{
    /// A view of the data that `self` owns, valid as long as the borrow of
    /// `self`.
    fn borrow<'a>(&'a self) -> (view: Narrowed<'a, Borrowed>)
        ensures
            view@ == self@,
    ;

    /// The view `borrowed` under the validity window of the borrow. The data
    /// is not touched: the result is `borrowed` with another window.
    fn reborrow<'a>(borrowed: &'a Borrowed) -> (view: Narrowed<'a, Borrowed>)
        ensures
            view == <Borrowed as Reference<'a>>::narrowed(*borrowed),
    ;

    /// A new owner that holds a copy of the data that `borrowed` describes.
    fn from_ref<'a>(borrowed: &'a Borrowed) -> (owner: Self)
        ensures
            owner@ == borrowed@,
    ;
}

/// Round trip: an owner that is made from a view of the data of `owner` holds
/// the data of `owner`.
///
/// Here `view` is borrowed from `owner`, `again` is a view of what `view`
/// describes, and `copy` is made from `again`.
pub proof fn lemma_round_trip<'a, B, O>(owner: O, view: Narrowed<'a, B>, again: B, copy: O) where
    B: Copy + for<'b> Reference<'b>,
    O: Referencable<B>,

    requires
        call_ensures(O::borrow, (&owner,), view),
        again@ == view@,
        call_ensures(O::from_ref, (&again,), copy),
    ensures
        copy@ == owner@,
{
}

/// Reborrowing only relabels: what it returns is the view that it was given,
/// under the new validity window, and describes the same data.
pub proof fn lemma_reborrow_relabels<'a, B, O>(borrowed: B, view: Narrowed<'a, B>) where
    B: Copy + for<'b> Reference<'b>,
    O: Referencable<B>,

    requires
        call_ensures(O::reborrow, (&borrowed,), view),
    ensures
        view == <B as Reference<'a>>::narrowed(borrowed),
        view@ == borrowed@,
{
    <B as Reference<'a>>::lemma_narrowed_data(borrowed);
}

} // verus!
