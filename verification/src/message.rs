//! Text that can serve as the message of a failure.

use vstd::prelude::*;

verus! {

/// A value that is text already, and is taken as a message as it stands.
pub trait Message: Sized {
    /// The characters of the message.
    spec fn text(&self) -> Seq<char>;

    /// The message as an owned string.
    fn into_text(self) -> (s: String)
        ensures
            s@ == self.text(),
    ;
}

impl Message for String {
    open spec fn text(&self) -> Seq<char> {
        self@
    }

    fn into_text(self) -> (s: String) {
        self
    }
}

impl<'a> Message for &'a str {
    open spec fn text(&self) -> Seq<char> {
        self@
    }

    fn into_text(self) -> (s: String) {
        self.to_owned()
    }
}

impl<'a> Message for &'a String {
    open spec fn text(&self) -> Seq<char> {
        self@
    }

    fn into_text(self) -> (s: String) {
        self.clone()
    }
}

} // verus!
