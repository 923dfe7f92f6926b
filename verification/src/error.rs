//! A wrapper that carries one failure.

use vstd::prelude::*;
use vstd::std_specs::convert::FromSpecImpl;
use crate::fail::Fail;

verus! {

/// A wrapper of [`Fail`], for code that hands failures on as error values.
#[derive(Debug)]
pub struct Error(Fail);

impl Error {
    /// The failure that this error wraps.
    pub closed spec fn inner(self) -> Fail {
        self.0
    }

    /// The wrapped failure.
    pub fn as_fail(&self) -> (fail: &Fail)
        ensures
            *fail == self.inner(),
            fail@.wf(),
    {
        proof {
            use_type_invariant(&self.0);
        }
        &self.0
    }

    /// Gives the wrapped failure back.
    pub fn into_fail(self) -> (fail: Fail)
        ensures
            fail == self.inner(),
            fail@.wf(),
    {
        proof {
            use_type_invariant(&self.0);
        }
        self.0
    }

    /// Appends the rendering of the wrapped failure to `out`.
    pub fn fmt(&self, out: &mut String)
        ensures
            final(out)@ == old(out)@ + self.inner()@.text(),
    {
        self.0.fmt(out)
    }

    /// The rendering of the wrapped failure.
    pub fn to_string(&self) -> (text: String)
        ensures
            text@ == self.inner()@.text(),
    {
        self.0.to_string()
    }
}

impl From<Fail> for Error {
    /// Wraps `fail`.
    fn from(fail: Fail) -> (error: Error)
        ensures
            error.inner() == fail,
    {
        Error(fail)
    }
}

impl FromSpecImpl<Fail> for Error {
    open spec fn obeys_from_spec() -> bool {
        true
    }

    closed spec fn from_spec(fail: Fail) -> Error {
        Error(fail)
    }
}

} // verus!
