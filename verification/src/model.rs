//! The mathematical model of a failure chain.

use std::fmt::Display;
use vstd::prelude::*;
use vstd::string::to_string_from_display_ensures;

verus! {

/// What a [`Fail`](crate::Fail) holds: the message of the outermost link and
/// what caused it.
pub struct FailView {
    pub msg: Option<Seq<char>>,
    pub cause: Option<CauseView>,
}

/// What lies one step further down a chain.
pub enum CauseView {
    /// The text of an error that came from outside this library.
    Error(Seq<char>),
    /// An older failure, wrapped whole.
    Fail(Box<FailView>),
}

/// The text written between a message and its cause.
pub open spec fn separator() -> Seq<char> {
    seq![':', ' ']
}

/// Whether `text` is what `value` may render to through its `Display`
/// implementation. Nothing more is known of a foreign `Display`, so the
/// functions that render a value state their results through this relation.
pub open spec fn displays_as<D: Display + ?Sized>(value: &D, text: Seq<char>) -> bool {
    exists|s: String| s@ == text && #[trigger] to_string_from_display_ensures::<D>(value, s)
}

/// The messages of `ms` as a chain shows them: the last one first, each
/// followed by a separator.
pub open spec fn chain_prefix(ms: Seq<Seq<char>>) -> Seq<char>
    decreases ms.len(),
{
    if ms.len() == 0 {
        Seq::empty()
    } else {
        ms.last() + separator() + chain_prefix(ms.drop_last())
    }
}

/// The texts of `parts` in one line, with a separator between neighbours.
pub open spec fn join(parts: Seq<Seq<char>>) -> Seq<char>
    decreases parts.len(),
{
    if parts.len() == 0 {
        Seq::empty()
    } else if parts.len() == 1 {
        parts[0]
    } else {
        parts[0] + separator() + join(parts.skip(1))
    }
}

impl CauseView {
    /// The text that this cause renders to.
    pub open spec fn text(self) -> Seq<char>
        decreases self,
    {
        match self {
            CauseView::Error(t) => t,
            CauseView::Fail(inner) => inner.text(),
        }
    }

    /// The texts that this cause and what lies below it show.
    pub open spec fn parts(self) -> Seq<Seq<char>>
        decreases self,
    {
        match self {
            CauseView::Error(t) => seq![t],
            CauseView::Fail(inner) => inner.parts(),
        }
    }

    /// The number of causes from here to the end of the chain, this one
    /// included.
    pub open spec fn depth(self) -> nat
        decreases self,
    {
        match self {
            CauseView::Error(_) => 1,
            CauseView::Fail(inner) => 1 + inner.depth(),
        }
    }
}

impl FailView {
    /// A failure that starts here: a message and no cause.
    pub open spec fn message(m: Seq<char>) -> FailView {
        FailView { msg: Some(m), cause: None }
    }

    /// A failure that only passes on an outside error with text `t`.
    pub open spec fn foreign(t: Seq<char>) -> FailView {
        FailView { msg: None, cause: Some(CauseView::Error(t)) }
    }

    /// The rendering: the message, then the cause, with a separator between
    /// them where both are present.
    pub open spec fn text(self) -> Seq<char>
        decreases self,
    {
        match (self.msg, self.cause) {
            (None, None) => Seq::empty(),
            (Some(m), None) => m,
            (None, Some(c)) => c.text(),
            (Some(m), Some(c)) => m + separator() + c.text(),
        }
    }

    /// The texts that the chain shows, outermost first: each message that
    /// is there, and last the text of the outside error where the chain ends
    /// in one.
    pub open spec fn parts(self) -> Seq<Seq<char>>
        decreases self,
    {
        let head = match self.msg {
            Some(m) => seq![m],
            None => Seq::empty(),
        };
        match self.cause {
            Some(c) => head + c.parts(),
            None => head,
        }
    }

    /// The number of causes in the chain.
    pub open spec fn depth(self) -> nat
        decreases self,
    {
        match self.cause {
            None => 0,
            Some(c) => c.depth(),
        }
    }

    /// The result of attaching the message `m`: an empty message slot is
    /// filled in place, a taken one makes the whole value the new cause.
    pub open spec fn attach(self, m: Seq<char>) -> FailView {
        match self.msg {
            None => FailView { msg: Some(m), cause: self.cause },
            Some(_) => FailView { msg: Some(m), cause: Some(CauseView::Fail(Box::new(self))) },
        }
    }

    /// The result of attaching the messages of `ms` one after another,
    /// `ms[0]` first.
    pub open spec fn attach_all(self, ms: Seq<Seq<char>>) -> FailView
        decreases ms.len(),
    {
        if ms.len() == 0 {
            self
        } else {
            self.attach_all(ms.drop_last()).attach(ms.last())
        }
    }

    /// Whether the value holds anything at all: a message or a cause.
    pub open spec fn says_something(self) -> bool {
        self.msg is Some || self.cause is Some
    }

    /// The shape of every failure that can be built: the outermost link has
    /// a message or passes on an outside error, and every failure below it
    /// has a message and is of that shape too.
    pub open spec fn wf(self) -> bool
        decreases self,
    {
        match self.cause {
            None => self.msg is Some,
            Some(CauseView::Error(_)) => true,
            Some(CauseView::Fail(inner)) => self.msg is Some && inner.msg is Some && inner.wf(),
        }
    }
}

} // verus!
