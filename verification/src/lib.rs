//! A clone-on-write container, generic over a pair of a view type and an
//! owner type.
//!
//! A [`Koe`] holds either a cheap view of data that lives elsewhere or an
//! owner of the data. Reading never copies. The copy from view to owner is
//! put off until mutable access, or the owner itself, is asked for.
//!
//! - [`reference`]: view types and their validity windows, and owner types.
//! - [`compare`]: equality and order of views.
//! - [`koe`]: the container.
//! - [`koe_compare`]: equality and order of containers.
//! - [`string_view`]: text, with a string slice as the view and `String` as
//!   the owner.
//! - [`lexical`]: lexicographic comparison of byte strings.
pub mod compare;
pub mod koe;
pub mod koe_compare;
pub mod lexical;
pub mod reference;
pub mod string_view;

pub use compare::{ReferenceOrd, ReferencePartialEq, ReferencePartialOrd};
pub use koe::Koe;
pub use koe::Koe::{Borrowed, Owned};
pub use reference::{Narrowed, NotSame, Referencable, Reference};
pub use string_view::StringView;
