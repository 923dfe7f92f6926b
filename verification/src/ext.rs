//! Attaching context to values that may be absent or in error.

use std::fmt::Display;
use vstd::prelude::*;
use crate::fail::Fail;
use crate::message::Message;
use crate::model::{displays_as, CauseView, FailView};

verus! {

/// Context for `Result` and `Option`: a value that is there passes through,
/// one that is not becomes a [`Fail`] with the message as its outermost link.
pub trait FailExt<T>: Sized {
    /// The value that is there, if any.
    spec fn present(self) -> Option<T>;

    /// Whether `fail` is what attaching the message `m` makes of this value,
    /// which holds nothing to pass through.
    spec fn fails_as(self, m: Seq<char>, fail: FailView) -> bool;

    /// Passes a present value through unchanged; otherwise gives the failure
    /// that carries `msg` as its outermost message.
    fn context<S: Message>(self, msg: S) -> (res: Result<T, Fail>)
        ensures
            self.present() matches Some(v) ==> res == Ok::<T, Fail>(v),
            self.present() is None ==> res is Err,
            res matches Err(fail) ==> fail@.wf() && self.fails_as(msg.text(), fail@),
    ;
}

impl<T, E: 'static + Send + Sync + Display> FailExt<T> for Result<T, E> {
    open spec fn present(self) -> Option<T> {
        match self {
            Ok(v) => Some(v),
            Err(_) => None,
        }
    }

    /// The error becomes the cause: the failure is what the conversion of
    /// the error gives, with the message attached.
    open spec fn fails_as(self, m: Seq<char>, fail: FailView) -> bool {
        match (self, fail.cause) {
            (Err(e), Some(CauseView::Error(t))) => displays_as(&e, t) && fail == FailView::foreign(
                t,
            ).attach(m),
            _ => false,
        }
    }

    fn context<S: Message>(self, msg: S) -> (res: Result<T, Fail>) {
        match self {
            Ok(v) => Ok(v),
            Err(err) => Err(Fail::caused_by(err.to_string()).add_msg(msg)),
        }
    }
}

impl<T> FailExt<T> for Option<T> {
    open spec fn present(self) -> Option<T> {
        self
    }

    /// The failure starts here: the message and no cause.
    open spec fn fails_as(self, m: Seq<char>, fail: FailView) -> bool {
        fail == FailView::message(m)
    }

    fn context<S: Message>(self, msg: S) -> (res: Result<T, Fail>) {
        match self {
            Some(v) => Ok(v),
            None => Err(Fail::new(msg)),
        }
    }
}

impl<T> FailExt<T> for Result<T, Fail> {
    open spec fn present(self) -> Option<T> {
        match self {
            Ok(v) => Some(v),
            Err(_) => None,
        }
    }

    /// The message is attached to the failure that is already there.
    open spec fn fails_as(self, m: Seq<char>, fail: FailView) -> bool {
        self matches Err(old_fail) && fail == old_fail@.attach(m)
    }

    fn context<S: Message>(self, msg: S) -> (res: Result<T, Fail>) {
        match self {
            Ok(v) => Ok(v),
            Err(fail) => Err(fail.add_msg(msg)),
        }
    }
}

} // verus!
