//! The data model: the content values a client can paste.

use vstd::prelude::*;

use crate::address::key_of;

verus! {

/// Number of characters in a content key.
pub const HASHLEN: usize = 7;

/// Mathematical model of a content value: the payload as a sequence of
/// characters, under the tag of its variant.
pub enum ContentView {
    PlainText(Seq<char>),
}

/// A content value: the immutable payload a client wants stored.
///
/// The type is an open tagged union with a single variant today, plain
/// text, so that further payload kinds can be added without changing the
/// addressing contract.
#[derive(Debug, PartialEq)]
pub enum PasteContent {
    PlainText(String),
}

impl View for PasteContent {
    type V = ContentView;

    open spec fn view(&self) -> ContentView {
        match self {
            PasteContent::PlainText(s) => ContentView::PlainText(s@),
        }
    }
}

impl Clone for PasteContent {
    fn clone(&self) -> (r: Self)
        ensures
            r == *self,
    {
        match self {
            PasteContent::PlainText(s) => PasteContent::PlainText(s.clone()),
        }
    }
}

/// A value that can be addressed: it has a stable, fixed-length content key.
pub trait Content: View<V = ContentView> {
    /// Compute the content key of this value.
    ///
    /// The key is a pure function of the payload (same payload, same key,
    /// on every call and in every process) and is always exactly
    /// [`HASHLEN`] characters long.
    fn hash(&self) -> (r: String)
        ensures
            r@ == key_of(self@),
            r@.len() == HASHLEN as nat,
    ;
}

impl Content for PasteContent {
    fn hash(&self) -> (r: String) {
        match self {
            PasteContent::PlainText(txt) => crate::address::content_key(txt.as_str().as_bytes()),
        }
    }
}

} // verus!
