//! What a response means: the status codes of document and cursor
//! endpoints, the items of a batch answer, and the job a queued request
//! became.

use crate::error::{err_message, RuarangoErr};
use crate::model::doc::output::DocErr;
use crate::model::BaseErr;
use vstd::prelude::*;
use vstd::string::*;

verus! {

/// One of two values.
#[derive(Clone, Debug, PartialEq, Eq)]
pub enum Either<L, R> {
    /// The left value
    Left(L),
    /// The right value
    Right(R),
}

impl<L, R> Either<L, R> {
    /// Is this the left value?
    pub fn is_left(&self) -> (r: bool)
        ensures
            r == (self is Left),
    {
        match self {
            Either::Left(_) => true,
            Either::Right(_) => false,
        }
    }

    /// Is this the right value?
    pub fn is_right(&self) -> (r: bool)
        ensures
            r == (self is Right),
    {
        match self {
            Either::Left(_) => false,
            Either::Right(_) => true,
        }
    }
}

/// The statuses on which a document endpoint sends the document or its
/// metadata.
pub open spec fn doc_status_ok(status: u16) -> bool {
    status == 200 || status == 201 || status == 202
}

/// What a document endpoint's status means. `err` is the error body that the
/// server sent, when it could be read as one; it is kept for a conflict and a
/// failed precondition.
pub open spec fn doc_outcome(status: u16, err: Option<DocErr>) -> Result<(), RuarangoErr> {
    if doc_status_ok(status) {
        Ok(())
    } else if status == 404 {
        Err(RuarangoErr::NotFound { err: None })
    } else if status == 304 {
        Err(RuarangoErr::NotModified)
    } else if status == 409 {
        Err(RuarangoErr::Conflict { err })
    } else if status == 412 {
        Err(RuarangoErr::PreconditionFailed { err })
    } else {
        Err(RuarangoErr::InvalidDocResponse { status, err: None })
    }
}

/// What a document endpoint's status means: `Ok` when the body holds the
/// answer (200, 201, 202); otherwise the error that the status stands for.
pub fn doc_response(status: u16, err: Option<DocErr>) -> (r: Result<(), RuarangoErr>)
    ensures
        r == doc_outcome(status, err),
{
    if status == 200 || status == 201 || status == 202 {
        Ok(())
    } else if status == 404 {
        Err(RuarangoErr::NotFound { err: None })
    } else if status == 304 {
        Err(RuarangoErr::NotModified)
    } else if status == 409 {
        Err(RuarangoErr::Conflict { err })
    } else if status == 412 {
        Err(RuarangoErr::PreconditionFailed { err })
    } else {
        Err(RuarangoErr::InvalidDocResponse { status, err: None })
    }
}

/// A document endpoint's answer is a success exactly on 200, 201 and 202,
/// and the error body that came with it counts only for a conflict (409) and
/// a failed precondition (412).
pub proof fn lemma_doc_outcome_by_status(status: u16, err: Option<DocErr>)
    ensures
        doc_outcome(status, err) is Ok <==> doc_status_ok(status),
        status != 409 && status != 412 ==> doc_outcome(status, err) == doc_outcome(status, None),
{
}

/// What a cursor endpoint's status means. `err` is the error body that the
/// server sent, when it could be read as one.
pub open spec fn cursor_outcome(status: u16, err: Option<BaseErr>) -> Result<(), RuarangoErr> {
    if status == 201 || status == 202 {
        Ok(())
    } else if status == 400 || status == 404 {
        Err(RuarangoErr::Cursor { err })
    } else {
        Err(RuarangoErr::InvalidCursorResponse { status })
    }
}

/// What a cursor endpoint's status means: `Ok` when the body holds the
/// cursor (201, 202); a cursor error on 400 and 404; an invalid response
/// otherwise.
pub fn cursor_response(status: u16, err: Option<BaseErr>) -> (r: Result<(), RuarangoErr>)
    ensures
        r == cursor_outcome(status, err),
{
    if status == 201 || status == 202 {
        Ok(())
    } else if status == 400 || status == 404 {
        Err(RuarangoErr::Cursor { err })
    } else {
        Err(RuarangoErr::InvalidCursorResponse { status })
    }
}

/// A cursor endpoint's answer is a success exactly on 201 and 202, and the
/// error body that came with it counts only for 400 and 404.
pub proof fn lemma_cursor_outcome_by_status(status: u16, err: Option<BaseErr>)
    ensures
        cursor_outcome(status, err) is Ok <==> (status == 201 || status == 202),
        status != 400 && status != 404 ==> cursor_outcome(status, err) == cursor_outcome(
            status,
            None,
        ),
{
}

/// The items of a batch answer, from what each element of the answer array
/// reads as: a result when it reads as one, else an error when it reads as
/// one; an element that reads as neither is dropped.
pub open spec fn sorted_items<E, T>(s: Seq<(Option<T>, Option<E>)>) -> Seq<Either<E, T>>
    decreases s.len(),
{
    if s.len() == 0 {
        Seq::empty()
    } else {
        let prev = sorted_items(s.drop_last());
        match s.last() {
            (Some(t), _) => prev.push(Either::Right(t)),
            (None, Some(e)) => prev.push(Either::Left(e)),
            (None, None) => prev,
        }
    }
}

/// The items of a batch answer, in order, from what each element of the
/// answer array reads as (see `sorted_items`).
pub fn split_items<E, T>(items: Vec<(Option<T>, Option<E>)>) -> (r: Vec<Either<E, T>>)
    ensures
        r@ == sorted_items(items@),
{
    broadcast use vstd::std_specs::vec::axiom_spec_into_iter;

    let ghost orig = items@;
    let mut out: Vec<Either<E, T>> = Vec::new();
    for x in it: items.into_iter()
        invariant
            it.seq() == orig,
            out@ == sorted_items(orig.take(it.index() as int)),
    {
        proof {
            assert(orig.take(it.index() + 1).drop_last() =~= orig.take(it.index() as int));
            assert(orig.take(it.index() + 1).last() == x);
        }
        match x {
            (Some(t), _) => out.push(Either::Right(t)),
            (None, Some(e)) => out.push(Either::Left(e)),
            (None, None) => {},
        }
    }
    proof {
        assert(orig.take(orig.len() as int) =~= orig);
    }
    out
}

/// A batch answer has at most as many items as the answer array has
/// elements, and exactly one for each element that reads as a result or an
/// error.
pub proof fn lemma_sorted_items_len<E, T>(s: Seq<(Option<T>, Option<E>)>)
    ensures
        sorted_items(s).len() <= s.len(),
        sorted_items(s).len() == s.filter(|p: (Option<T>, Option<E>)| p.0 is Some || p.1 is Some).len(),
    decreases s.len(),
{
    reveal(Seq::filter);
    if s.len() > 0 {
        lemma_sorted_items_len(s.drop_last());
    }
}

/// The items of a batch answer keep the order of the answer array: the items
/// of two arrays one after the other are the items of the first followed by
/// those of the second.
pub proof fn lemma_sorted_items_append<E, T>(
    s1: Seq<(Option<T>, Option<E>)>,
    s2: Seq<(Option<T>, Option<E>)>,
)
    ensures
        sorted_items(s1 + s2) == sorted_items(s1) + sorted_items(s2),
    decreases s2.len(),
{
    if s2.len() == 0 {
        assert(s1 + s2 =~= s1);
        assert(sorted_items(s1) + sorted_items(s2) =~= sorted_items(s1));
    } else {
        lemma_sorted_items_append(s1, s2.drop_last());
        assert((s1 + s2).drop_last() =~= s1 + s2.drop_last());
        assert((s1 + s2).last() == s2.last());
        let p1 = sorted_items(s1);
        let p2 = sorted_items(s2.drop_last());
        match s2.last() {
            (Some(t), _) => {
                assert(p1 + p2.push(Either::Right(t)) =~= (p1 + p2).push(Either::Right(t)));
            },
            (None, Some(e)) => {
                assert(p1 + p2.push(Either::Left(e)) =~= (p1 + p2).push(Either::Left(e)));
            },
            (None, None) => {},
        }
    }
}

/// When every element of the answer array reads as a result, the items are
/// those results, in order.
pub proof fn lemma_sorted_items_all_results<E, T>(s: Seq<(Option<T>, Option<E>)>)
    requires
        forall|i: int| 0 <= i < s.len() ==> (#[trigger] s[i]).0 is Some,
    ensures
        sorted_items(s) == s.map_values(|p: (Option<T>, Option<E>)| Either::<E, T>::Right(p.0->0)),
    decreases s.len(),
{
    if s.len() > 0 {
        let d = s.drop_last();
        assert forall|i: int| 0 <= i < d.len() implies (#[trigger] d[i]).0 is Some by {
            assert(d[i] == s[i]);
        }
        lemma_sorted_items_all_results(d);
        assert(s[s.len() - 1].0 is Some);
        assert(s.map_values(|p: (Option<T>, Option<E>)| Either::<E, T>::Right(p.0->0)) =~= d.map_values(
            |p: (Option<T>, Option<E>)| Either::<E, T>::Right(p.0->0),
        ).push(Either::Right(s.last().0->0)));
    }
}

/// The error for a body that could not be read: the reason and the body.
pub fn invalid_body(err: &str, body: &str) -> (r: RuarangoErr)
    ensures
        r matches RuarangoErr::InvalidBody { err: e, body: b } && e@ == err@ && b@ == body@,
{
    RuarangoErr::InvalidBody { err: String::from_str(err), body: String::from_str(body) }
}

/// The error for a batch answer whose body is not an array; its message is
/// `result was not an array!`.
pub fn not_an_array() -> (r: RuarangoErr)
    ensures
        r == RuarangoErr::NotAnArray,
        err_message(r) == "result was not an array!"@,
{
    RuarangoErr::NotAnArray
}

/// What each status of a document endpoint stands for (`r`, what
/// `doc_response` gives): success on 200, 201 and 202; not found on 404;
/// not modified on 304; a conflict on 409 and a failed precondition on 412,
/// with the error body; an invalid response otherwise.
pub proof fn lemma_doc_statuses(status: u16, err: Option<DocErr>, r: Result<(), RuarangoErr>)
    requires
        r == doc_outcome(status, err),
    ensures
        (status == 200 || status == 201 || status == 202) ==> r == Ok::<(), RuarangoErr>(()),
        status == 404 ==> r == Err::<(), RuarangoErr>(RuarangoErr::NotFound { err: None }),
        status == 304 ==> r == Err::<(), RuarangoErr>(RuarangoErr::NotModified),
        status == 409 ==> r == Err::<(), RuarangoErr>(RuarangoErr::Conflict { err }),
        status == 412 ==> r == Err::<(), RuarangoErr>(RuarangoErr::PreconditionFailed { err }),
        !(status == 200 || status == 201 || status == 202 || status == 404 || status == 304
            || status == 409 || status == 412) ==> r == Err::<(), RuarangoErr>(
            RuarangoErr::InvalidDocResponse { status, err: None },
        ),
{
}

/// What each status of a cursor endpoint stands for (`r`, what
/// `cursor_response` gives): success on 201 and 202; a cursor error with the
/// error body on 400 and 404; an invalid response otherwise.
pub proof fn lemma_cursor_statuses(status: u16, err: Option<BaseErr>, r: Result<(), RuarangoErr>)
    requires
        r == cursor_outcome(status, err),
    ensures
        (status == 201 || status == 202) ==> r == Ok::<(), RuarangoErr>(()),
        (status == 400 || status == 404) ==> r == Err::<(), RuarangoErr>(RuarangoErr::Cursor { err }),
        !(status == 201 || status == 202 || status == 400 || status == 404) ==> r == Err::<
            (),
            RuarangoErr,
        >(RuarangoErr::InvalidCursorResponse { status }),
{
}

} // verus!
