//! Labels of atomic propositions.

use vstd::prelude::*;
use crate::decimal::{decimal, decimal_string};

verus! {

/// A type whose values can label an atomic proposition.
///
/// All the labels of one formula are of one type.
pub trait Label: Sized {
    /// The label's own textual form.
    spec fn text(&self) -> Seq<char>;

    /// Writes the label in its textual form.
    fn to_text(&self) -> (s: String)
        ensures
            s@ == self.text(),
    ;

    /// An independent copy of the label.
    fn duplicate(&self) -> (copy: Self)
        ensures
            copy == *self,
    ;
}

/// Integer labels are written in decimal notation.
impl Label for i32 {
    open spec fn text(&self) -> Seq<char> {
        decimal(*self as int)
    }

    fn to_text(&self) -> (s: String) {
        decimal_string(*self)
    }

    fn duplicate(&self) -> (copy: Self) {
        *self
    }
}

/// Text labels are written as they are.
impl Label for String {
    open spec fn text(&self) -> Seq<char> {
        self@
    }

    fn to_text(&self) -> (s: String) {
        self.clone()
    }

    fn duplicate(&self) -> (copy: Self) {
        self.clone()
    }
}

} // verus!
