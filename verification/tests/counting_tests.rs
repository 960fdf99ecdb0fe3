use koe::Koe;
use koe::Referencable;
use koe::Reference;
use koe::ReferencePartialEq;
use std::cell::Cell;

/// A view of bytes that counts, in `copies`, the owners made from it.
#[derive(Clone, Copy, Debug)]
struct CountedView<'a> {
    data: &'a [u8],
    copies: &'a Cell<usize>,
}

/// An owner of bytes that knows the counter of the view it was made from.
#[derive(Clone, Debug)]
struct CountedBytes<'c> {
    data: Vec<u8>,
    copies: &'c Cell<usize>,
}

impl<'a> vstd::view::View for CountedView<'a> {
    type V = ();

    fn view(&self) {}
}

impl<'c> vstd::view::View for CountedBytes<'c> {
    type V = ();

    fn view(&self) {}
}

impl<'a, 'b> Reference<'b> for CountedView<'a> {
    type Type = CountedView<'b>;

    fn narrowed(self) -> CountedView<'b> {
        unreachable!()
    }

    fn lemma_narrowed_data(self) {}
}

impl<'n> ReferencePartialEq<CountedView<'n>> for CountedView<'n> {
    fn eq<'a>(a: CountedView<'a>, b: CountedView<'a>) -> bool {
        a.data == b.data
    }
}

impl<'n> Referencable<CountedView<'n>> for CountedBytes<'n> {
    fn borrow<'a>(&'a self) -> CountedView<'a> {
        CountedView { data: &self.data, copies: self.copies }
    }

    fn reborrow<'a>(borrowed: &'a CountedView<'n>) -> CountedView<'a> {
        *borrowed
    }

    fn from_ref<'a>(borrowed: &'a CountedView<'n>) -> Self {
        borrowed.copies.set(borrowed.copies.get() + 1);
        CountedBytes { data: borrowed.data.to_vec(), copies: borrowed.copies }
    }
}

#[test]
fn to_mut_on_a_view_copies_exactly_once() {
    let copies = Cell::new(0);
    let mut koe: Koe<CountedView, CountedBytes> =
        Koe::Borrowed(CountedView { data: b"hoi", copies: &copies });
    assert_eq!(copies.get(), 0);
    koe.to_mut().data.push(b'!');
    assert_eq!(copies.get(), 1);
    koe.to_mut().data.push(b'?');
    assert_eq!(copies.get(), 1);
    assert_eq!(koe.to_mut().data, b"hoi!?");
    assert_eq!(copies.get(), 1);
}

#[test]
fn to_mut_on_an_owner_never_copies() {
    let copies = Cell::new(0);
    let mut koe: Koe<CountedView, CountedBytes> =
        Koe::Owned(CountedBytes { data: b"hoi".to_vec(), copies: &copies });
    koe.to_mut().data.push(b'!');
    koe.to_mut().data.push(b'?');
    assert_eq!(koe.to_mut().data, b"hoi!?");
    assert_eq!(copies.get(), 0);
}

#[test]
fn reading_never_copies() {
    let copies = Cell::new(0);
    let view: Koe<CountedView, CountedBytes> =
        Koe::Borrowed(CountedView { data: b"hoi", copies: &copies });
    let owner: Koe<CountedView, CountedBytes> =
        Koe::Owned(CountedBytes { data: b"hoi".to_vec(), copies: &copies });
    assert_eq!(view.borrow().data, b"hoi");
    assert_eq!(owner.borrow().data, b"hoi");
    assert!(view == owner);
    assert!(owner == view);
    assert!(view.is_borrowed());
    assert!(owner.is_owned());
    assert!(view.clone().is_borrowed());
    assert_eq!(copies.get(), 0);
}

#[test]
fn into_owner_copies_a_view_once_and_an_owner_never() {
    let copies = Cell::new(0);
    let view: Koe<CountedView, CountedBytes> =
        Koe::Borrowed(CountedView { data: b"hoi", copies: &copies });
    assert_eq!(view.into_owner().data, b"hoi");
    assert_eq!(copies.get(), 1);
    let owner: Koe<CountedView, CountedBytes> =
        Koe::Owned(CountedBytes { data: b"hoi".to_vec(), copies: &copies });
    assert_eq!(owner.into_owner().data, b"hoi");
    assert_eq!(copies.get(), 1);
}

#[test]
fn move_into_never_copies() {
    let copies = Cell::new(0);
    let mut koe: Koe<CountedView, CountedBytes> =
        Koe::Borrowed(CountedView { data: b"hoi", copies: &copies });
    koe.move_into(CountedBytes { data: b"piepeloi".to_vec(), copies: &copies });
    assert_eq!(koe.to_mut().data, b"piepeloi");
    assert_eq!(copies.get(), 0);
}
