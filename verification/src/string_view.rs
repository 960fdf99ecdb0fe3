//! Views of text: a string slice as the view type, `String` as its owner.
use crate::compare::{ReferenceOrd, ReferencePartialEq, ReferencePartialOrd};
use crate::lexical::{
    compare_bytes, lemma_first_difference_at_end, lexical_order, same_bytes,
};
use crate::reference::{NotSame, Referencable, Reference};
use core::cmp::Ordering;
use vstd::prelude::*;
use vstd::utf8::{encode_utf8, encode_utf8_decode_utf8};

verus! {

/// A view of text that is owned elsewhere.
#[derive(Debug, Copy, Clone, PartialEq, Eq, PartialOrd, Ord)]
pub struct StringView<'a> {
    data: &'a str,
}

impl<'a> View for StringView<'a> {
    type V = Seq<char>;

    /// The characters of the viewed text.
    closed spec fn view(&self) -> Seq<char> {
        self.data@
    }
}

impl<'a> StringView<'a> {
    /// A view of the whole of `data`.
    pub fn new(data: &'a str) -> (view: StringView<'a>)
        ensures
            view@ == data@,
    {
        StringView { data }
    }

    /// The viewed text.
    pub fn as_str(&self) -> (data: &'a str)
        ensures
            data@ == self@,
    {
        self.data
    }
}

impl<'a> core::ops::Deref for StringView<'a> {
    type Target = str;

    /// The viewed text.
    fn deref(&self) -> (data: &str)
        ensures
            data@ == self@,
    {
        self.data
    }
}

impl<'a, 'b> Reference<'b> for StringView<'a> {
    type Type = StringView<'b>;

    open spec fn narrowed(self) -> StringView<'b> {
        self
    }

    proof fn lemma_narrowed_data(self) {
    }
}

impl<'a> NotSame for (StringView<'a>, String) {

}

impl<'n> Referencable<StringView<'n>> for String {
    fn borrow<'a>(&'a self) -> (view: StringView<'a>) {
        StringView { data: self.as_str() }
    }

    fn reborrow<'a>(borrowed: &'a StringView<'n>) -> (view: StringView<'a>)
        ensures
            view == *borrowed,
    {
        *borrowed
    }

    fn from_ref<'a>(borrowed: &'a StringView<'n>) -> (owner: String) {
        borrowed.data.to_owned()
    }
}

/// The order of texts: lexicographic by the bytes of their UTF-8 encoding.
pub open spec fn text_order(a: Seq<char>, b: Seq<char>) -> Ordering {
    lexical_order(encode_utf8(a), encode_utf8(b))
}

/// Texts have the same UTF-8 encoding exactly when they are the same text.
pub proof fn lemma_same_encoding(a: Seq<char>, b: Seq<char>)
    ensures
        encode_utf8(a) == encode_utf8(b) <==> a == b,
{
    encode_utf8_decode_utf8(a);
    encode_utf8_decode_utf8(b);
}

/// Texts are equal in the order exactly when they are the same text.
pub proof fn lemma_text_order_equal(a: Seq<char>, b: Seq<char>)
    ensures
        text_order(a, b) == Ordering::Equal <==> a == b,
{
    lemma_first_difference_at_end(encode_utf8(a), encode_utf8(b));
    lemma_same_encoding(a, b);
}

impl<'n> ReferencePartialEq<StringView<'n>> for StringView<'n> {
    fn eq<'a>(a: StringView<'a>, b: StringView<'a>) -> (r: bool) {
        proof {
            lemma_same_encoding(a@, b@);
        }
        same_bytes(a.data.as_bytes(), b.data.as_bytes())
    }
}

impl<'n> ReferencePartialOrd<StringView<'n>> for StringView<'n> {
    open spec fn data_partial_cmp(a: Seq<char>, b: Seq<char>) -> Option<Ordering> {
        Some(text_order(a, b))
    }

    proof fn lemma_data_partial_cmp_equal(a: Seq<char>, b: Seq<char>) {
        lemma_text_order_equal(a, b);
    }

    fn partial_cmp<'a>(a: StringView<'a>, b: StringView<'a>) -> (r: Option<Ordering>) {
        Some(compare_bytes(a.data.as_bytes(), b.data.as_bytes()))
    }
}

impl<'n> ReferenceOrd<StringView<'n>> for StringView<'n> {
    open spec fn data_cmp(a: Seq<char>, b: Seq<char>) -> Ordering {
        text_order(a, b)
    }

    proof fn lemma_data_cmp_equal(a: Seq<char>, b: Seq<char>) {
        lemma_text_order_equal(a, b);
    }

    fn cmp<'a>(a: StringView<'a>, b: StringView<'a>) -> (r: Ordering) {
        compare_bytes(a.data.as_bytes(), b.data.as_bytes())
    }
}

} // verus!
