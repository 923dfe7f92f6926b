//! The failure value and its rendering.

use std::fmt::Display;
use vstd::prelude::*;
use vstd::std_specs::convert::FromSpecImpl;
use vstd::string::to_string_from_display_ensures;
use crate::message::Message;
use crate::model::{displays_as, separator, CauseView, FailView};

verus! {

/// A failure: a chain of messages, newest first, that may end in the text of
/// an error from outside.
///
/// A failure starts from a message ([`Fail::new`]) or from an outside error
/// (`Fail::from`, which `?` calls), and grows by one message at each place
/// that adds context on the way up:
///
/// ```
/// use tiny_fail::{Fail, FailExt};
///
/// fn port(text: &str) -> Result<u16, Fail> {
///     let port = text.parse::<u16>().context("port is not a number")?;
///     Ok(port)
/// }
///
/// let fail = port("http").unwrap_err();
/// assert_eq!(fail.to_string(), "port is not a number: invalid digit found in string");
/// ```
#[derive(Debug)]
pub struct Fail {
    msg: Option<String>,
    cause: Option<FailCause>,
}

#[derive(Debug)]
enum FailCause {
    /// The text of an error from outside, as it rendered when it came in.
    Error(String),
    /// An older failure, one link further down.
    Fail(Box<Fail>),
}

impl FailCause {
    spec fn model(self) -> CauseView
        decreases self,
    {
        match self {
            FailCause::Error(t) => CauseView::Error(t@),
            FailCause::Fail(inner) => CauseView::Fail(Box::new(inner.model())),
        }
    }
}

impl View for Fail {
    type V = FailView;

    closed spec fn view(&self) -> FailView {
        self.model()
    }
}

impl Fail {
    spec fn model(self) -> FailView
        decreases self,
    {
        FailView {
            msg: match self.msg {
                Some(m) => Some(m@),
                None => None,
            },
            cause: match self.cause {
                Some(c) => Some(c.model()),
                None => None,
            },
        }
    }

    /// Holds of every failure that exists at run time: it has a message or
    /// passes on an outside error, and every failure below it has a message.
    #[verifier::type_invariant]
    pub open spec fn wf(self) -> bool {
        self@.wf()
    }

    /// A failure with the message `msg` and no cause.
    pub fn new<S: Message>(msg: S) -> (fail: Fail)
        ensures
            fail@ == FailView::message(msg.text()),
            fail@.text() == msg.text(),
            fail@.wf(),
    {
        Fail { msg: Some(msg.into_text()), cause: None }
    }

    /// A failure without a message, caused by an outside error that rendered
    /// to `text`.
    pub fn caused_by(text: String) -> (fail: Fail)
        ensures
            fail@ == FailView::foreign(text@),
            fail@.text() == text@,
            fail@.wf(),
    {
        Fail { msg: None, cause: Some(FailCause::Error(text)) }
    }

    /// Attaches `msg` as the outermost message. A failure that has no message
    /// yet takes it in place; any other becomes the cause of the new one.
    pub fn add_msg<S: Message>(self, msg: S) -> (fail: Fail)
        ensures
            fail@ == self@.attach(msg.text()),
            fail@.wf(),
    {
        proof {
            use_type_invariant(&self);
        }
        match self {
            Fail { msg: None, cause } => Fail { msg: Some(msg.into_text()), cause },
            fail => Fail {
                msg: Some(msg.into_text()),
                cause: Some(FailCause::Fail(Box::new(fail))),
            },
        }
    }

    /// Appends the rendering of this failure to `out`: the message, then the
    /// cause, with `": "` between them where both are there.
    pub fn fmt(&self, out: &mut String)
        ensures
            final(out)@ == old(out)@ + self@.text(),
        decreases self,
    {
        let has_msg = if let Some(msg) = &self.msg {
            out.append(msg.as_str());
            true
        } else {
            false
        };
        if let Some(cause) = &self.cause {
            if has_msg {
                proof {
                    reveal_strlit(": ");
                    assert(": "@ =~= separator());
                }
                out.append(": ");
            }
            match cause {
                FailCause::Error(text) => out.append(text.as_str()),
                FailCause::Fail(fail) => fail.fmt(out),
            }
        }
    }

    /// The rendering of this failure as one line of text.
    pub fn to_string(&self) -> (text: String)
        ensures
            text@ == self@.text(),
    {
        let mut text = String::new();
        self.fmt(&mut text);
        text
    }
}

impl<E: Display + Send + Sync + 'static> From<E> for Fail {
    /// Takes an outside error into a chain. The failure has no message, and
    /// its cause is the text that the error rendered to, with nothing added.
    fn from(err: E) -> (fail: Fail)
        ensures
            displays_as(&err, fail@.text()),
            fail@ == FailView::foreign(fail@.text()),
            fail@.wf(),
    {
        Fail::caused_by(err.to_string())
    }
}

impl<E: Display + Send + Sync + 'static> FromSpecImpl<E> for Fail {
    /// An outside `Display` need not render the same text twice, so the
    /// conversion is described by the contract of `from`, not by a function
    /// of the error.
    open spec fn obeys_from_spec() -> bool {
        false
    }

    /// One of the failures that the conversion may give.
    closed spec fn from_spec(err: E) -> Fail {
        Fail {
            msg: None,
            cause: Some(
                FailCause::Error(choose|s: String| to_string_from_display_ensures::<E>(&err, s)),
            ),
        }
    }
}

} // verus!
