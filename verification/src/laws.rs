//! What holds of every failure chain, proved over the model.

use vstd::prelude::*;
use crate::model::{chain_prefix, join, separator, CauseView, FailView};

verus! {

/// A failure made from a message alone renders to that message, has no
/// cause below it and is well formed.
pub proof fn lemma_message_text(m: Seq<char>)
    ensures
        FailView::message(m).text() == m,
        FailView::message(m).depth() == 0,
        FailView::message(m).wf(),
{
}

/// A failure that passes on an outside error renders to the text of that
/// error, with nothing added, and is well formed.
pub proof fn lemma_foreign_text(t: Seq<char>)
    ensures
        FailView::foreign(t).text() == t,
        FailView::foreign(t).depth() == 1,
        FailView::foreign(t).wf(),
{
}

/// Attaching a message to a failure without one fills the slot in place:
/// the cause stays, the chain gets no deeper, and the rendering is the
/// message, followed by a separator and the cause where there is one.
pub proof fn lemma_attach_fills(f: FailView, m: Seq<char>)
    requires
        f.msg is None,
    ensures
        f.attach(m).msg == Some(m),
        f.attach(m).cause == f.cause,
        f.attach(m).depth() == f.depth(),
        f.attach(m).text() == match f.cause {
            Some(c) => m + separator() + c.text(),
            None => m,
        },
{
}

/// Attaching a message to a failure that has one wraps it whole: the old
/// failure is the cause of the new one, the chain is deeper by one, and the
/// rendering is the message, a separator and the old rendering.
pub proof fn lemma_attach_wraps(f: FailView, m: Seq<char>)
    requires
        f.msg is Some,
    ensures
        f.attach(m).msg == Some(m),
        f.attach(m).cause == Some(CauseView::Fail(Box::new(f))),
        f.attach(m).depth() == f.depth() + 1,
        f.attach(m).text() == m + separator() + f.text(),
{
}

/// Whichever way a message is attached, nothing is lost: the rendering of
/// a failure that says anything stays as the tail, after the message and a
/// separator.
pub proof fn lemma_attach_text(f: FailView, m: Seq<char>)
    requires
        f.says_something(),
    ensures
        f.attach(m).text() == m + separator() + f.text(),
{
}

/// Attaching a message keeps a failure well formed.
pub proof fn lemma_attach_wf(f: FailView, m: Seq<char>)
    requires
        f.wf(),
    ensures
        f.attach(m).wf(),
{
}

/// Messages attached one after another show up in front of the rendering
/// of the failure they were attached to, the last one first.
pub proof fn lemma_attach_all_text(base: FailView, ms: Seq<Seq<char>>)
    requires
        base.says_something(),
    ensures
        base.attach_all(ms).says_something(),
        base.attach_all(ms).text() == chain_prefix(ms) + base.text(),
    decreases ms.len(),
{
    if ms.len() == 0 {
        assert(chain_prefix(ms) + base.text() =~= base.text());
    } else {
        let before = base.attach_all(ms.drop_last());
        lemma_attach_all_text(base, ms.drop_last());
        lemma_attach_text(before, ms.last());
        assert(ms.last() + separator() + (chain_prefix(ms.drop_last()) + base.text())
            =~= chain_prefix(ms) + base.text());
    }
}

/// The first message attached to a failure without one fills its slot, and
/// each later one adds a link to the chain.
pub proof fn lemma_attach_all_depth(base: FailView, ms: Seq<Seq<char>>)
    ensures
        ms.len() > 0 ==> base.attach_all(ms).msg is Some,
        base.msg is Some ==> base.attach_all(ms).depth() == base.depth() + ms.len(),
        base.msg is None && ms.len() > 0 ==> base.attach_all(ms).depth() == base.depth()
            + ms.len() - 1,
    decreases ms.len(),
{
    if ms.len() > 0 {
        lemma_attach_all_depth(base, ms.drop_last());
    }
}

/// A chain of well-formed failures stays well formed.
pub proof fn lemma_attach_all_wf(base: FailView, ms: Seq<Seq<char>>)
    requires
        base.wf(),
    ensures
        base.attach_all(ms).wf(),
    decreases ms.len(),
{
    if ms.len() > 0 {
        lemma_attach_all_wf(base, ms.drop_last());
        lemma_attach_wf(base.attach_all(ms.drop_last()), ms.last());
    }
}

/// A line of several parts is its first part, a separator and the line of
/// the rest.
pub proof fn lemma_join_first(first: Seq<char>, rest: Seq<Seq<char>>)
    requires
        rest.len() > 0,
    ensures
        join(seq![first] + rest) == first + separator() + join(rest),
{
    assert((seq![first] + rest).skip(1) =~= rest);
}

/// The rendering of a well-formed failure is the line of its parts: every
/// message from the outermost inwards and the root cause last, with
/// separators between them and nowhere else.
pub proof fn lemma_text_joins_parts(f: FailView)
    requires
        f.wf(),
    ensures
        f.parts().len() > 0,
        f.text() == join(f.parts()),
    decreases f,
{
    match (f.msg, f.cause) {
        (Some(m), Some(CauseView::Error(t))) => {
            lemma_join_first(m, seq![t]);
        },
        (Some(m), Some(CauseView::Fail(inner))) => {
            lemma_text_joins_parts(*inner);
            lemma_join_first(m, inner.parts());
        },
        _ => {},
    }
}

/// Attaching a message puts it in front of the parts and leaves the others
/// as they were, whether the message fills a slot or adds a link.
pub proof fn lemma_attach_parts(f: FailView, m: Seq<char>)
    ensures
        f.attach(m).parts() == seq![m] + f.parts(),
{
    match f.cause {
        Some(c) => {
            assert(seq![m] + (Seq::<Seq<char>>::empty() + c.parts()) =~= seq![m] + c.parts());
        },
        None => {
            assert(seq![m] + Seq::<Seq<char>>::empty() =~= seq![m]);
        },
    }
}

/// After several messages were attached the chain shows them newest first,
/// in front of what it showed before.
pub proof fn lemma_attach_all_parts(base: FailView, ms: Seq<Seq<char>>)
    ensures
        base.attach_all(ms).parts() == ms.reverse() + base.parts(),
    decreases ms.len(),
{
    if ms.len() == 0 {
        assert(ms.reverse() + base.parts() =~= base.parts());
    } else {
        lemma_attach_all_parts(base, ms.drop_last());
        lemma_attach_parts(base.attach_all(ms.drop_last()), ms.last());
        assert(seq![ms.last()] + (ms.drop_last().reverse() + base.parts()) =~= ms.reverse()
            + base.parts());
    }
}

} // verus!
