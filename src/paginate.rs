use vstd::prelude::*;
use crate::error::{ErrorInfo, CODE_BAD_REQUEST};
use crate::link::{link_parts, Link};

verus! {

/// A Link header that points at the next page.
pub open spec fn is_next_link(h: Seq<char>) -> bool {
    link_parts(h) matches Some((rel, _)) && rel == "next"@
}

/// The parameters of the first header, from index `i` on, that is a
/// well-formed link to the next page; malformed headers are passed over.
pub open spec fn first_next_params(hs: Seq<String>, i: int) -> Option<Seq<char>>
    decreases hs.len() - i,
{
    if 0 <= i < hs.len() {
        if is_next_link(hs[i]@) {
            Some(link_parts(hs[i]@)->Some_0.1)
        } else {
            first_next_params(hs, i + 1)
        }
    } else {
        None
    }
}

/// The link to the next page among a response's Link headers.
pub fn next_link(headers: &Vec<String>) -> (r: Option<Link>)
    ensures
        match first_next_params(headers@, 0) {
            Some(p) => r matches Some(l) && l.params@ == p && l.rel@ == "next"@,
            None => r is None,
        },
{
    let mut i: usize = 0;
    while i < headers.len()
        invariant
            i <= headers@.len(),
            first_next_params(headers@, i as int) == first_next_params(headers@, 0),
        decreases headers@.len() - i,
    {
        match Link::try_from(headers[i].as_str()) {
            Ok(l) => {
                if crate::http::text_eq(l.rel.as_str(), "next") {
                    return Some(l);
                }
            },
            Err(_) => {},
        }
        i = i + 1;
    }
    None
}

/// Where a page stream stands: a request for the next page (with the
/// query that replaces its own, if any) or the failure to make one; or
/// nothing more to fetch.
pub enum PageState<R> {
    Pending(Result<(R, Option<String>), ErrorInfo>),
    Exhausted,
}

/// What a page stream does next.
pub enum PageStep<R> {
    /// The stream is over.
    End,
    /// Yield this error; the stream is over after it.
    Fail(ErrorInfo),
    /// Send this request, with its query replaced where one is given.
    Send(R, Option<String>),
}

/// One step of a page stream: an exhausted stream ends, a failed request
/// is yielded as an error, a pending request is sent. Either way the state
/// that follows is exhausted until a response names a next page.
pub open spec fn step_of<R>(s: PageState<R>) -> (PageStep<R>, PageState<R>) {
    match s {
        PageState::Exhausted => (PageStep::End, PageState::Exhausted),
        PageState::Pending(Err(e)) => (PageStep::Fail(e), PageState::Exhausted),
        PageState::Pending(Ok((req, query))) => (PageStep::Send(req, query), PageState::Exhausted),
    }
}

impl<R> PageState<R> {
    /// The stream for a first request, or for the failure to build it.
    pub fn start(first: Result<R, ErrorInfo>) -> (r: PageState<R>)
        ensures
            r == match first {
                Ok(req) => PageState::Pending(Ok((req, None))),
                Err(e) => PageState::<R>::Pending(Err(e)),
            },
    {
        match first {
            Ok(req) => PageState::Pending(Ok((req, None))),
            Err(e) => PageState::Pending(Err(e)),
        }
    }

    /// Take the next step.
    pub fn step(self) -> (r: (PageStep<R>, PageState<R>))
        ensures
            r == step_of(self),
    {
        match self {
            PageState::Exhausted => (PageStep::End, PageState::Exhausted),
            PageState::Pending(Err(e)) => (PageStep::Fail(e), PageState::Exhausted),
            PageState::Pending(Ok((req, query))) => (PageStep::Send(req, query), PageState::Exhausted),
        }
    }
}

/// What the stream yields once a request was sent, and where it goes on:
/// a failure is yielded and ends it; a page is yielded, and the copy of
/// the request, with the next link's query, is pending when the response
/// names a next page (a request that could not be copied is a pending
/// "not pageable" error), else the stream is exhausted.
pub fn after_send<R, P>(sent: Result<P, ErrorInfo>, copy: Option<R>, links: &Vec<String>) -> (r: (
    Result<P, ErrorInfo>,
    PageState<R>,
))
    ensures
        match sent {
            Err(e) => r.0 == Err::<P, ErrorInfo>(e) && r.1 is Exhausted,
            Ok(p) => r.0 == Ok::<P, ErrorInfo>(p) && match first_next_params(links@, 0) {
                None => r.1 is Exhausted,
                Some(q) => match copy {
                    Some(req) => r.1 matches PageState::Pending(Ok((req2, Some(q2)))) && req2 == req
                        && q2@ == q,
                    None => r.1 matches PageState::Pending(Err(e)) && e.code == CODE_BAD_REQUEST,
                },
            },
        },
{
    match sent {
        Err(e) => (Err(e), PageState::Exhausted),
        Ok(p) => {
            let next = match next_link(links) {
                None => PageState::Exhausted,
                Some(link) => match copy {
                    Some(req) => PageState::Pending(Ok((req, Some(link.params)))),
                    None => PageState::Pending(Err(ErrorInfo::new(CODE_BAD_REQUEST, "not a pageable request"))),
                },
            };
            (Ok(p), next)
        },
    }
}

/// Once a stream has yielded an error it yields nothing more: the state
/// after a failed step only ends, and stays exhausted.
pub proof fn lemma_nothing_after_error<R>(s: PageState<R>)
    requires
        step_of(s).0 is Fail,
    ensures
        step_of(step_of(s).1) == (PageStep::<R>::End, PageState::<R>::Exhausted),
{
}

/// An exhausted stream ends, and stays exhausted.
pub proof fn lemma_exhausted_ends<R>(s: PageState<R>)
    requires
        s is Exhausted,
    ensures
        step_of(s) == (PageStep::<R>::End, PageState::<R>::Exhausted),
{
}

/// The first page of a stream, from its first element; a stream without
/// any is an internal error.
pub fn first_page<P>(first: Option<Result<P, ErrorInfo>>) -> (r: Result<P, ErrorInfo>)
    ensures
        match first {
            Some(x) => r == x,
            None => r matches Err(e) && e.code == CODE_BAD_REQUEST,
        },
{
    match first {
        Some(x) => x,
        None => Err(ErrorInfo::new(CODE_BAD_REQUEST, "Unexpected error retrieving first page")),
    }
}

/// A handler for items of a paginated response, such as decoding message
/// payloads before they reach the caller.
pub trait PaginatedItemHandler<T> {
    /// `after` is what handling makes of `before`.
    spec fn handled(&self, before: T, after: T) -> bool;

    fn handle(&self, item: &mut T)
        ensures
            self.handled(*old(item), *final(item)),
    ;
}

/// The handler that leaves items as they are.
impl<T> PaginatedItemHandler<T> for () {
    open spec fn handled(&self, before: T, after: T) -> bool {
        before == after
    }

    fn handle(&self, item: &mut T) {
    }
}

/// Run the handler, if any, over each item of a page, in order: item `i`
/// of the result is what the handler made of item `i` of the page.
pub fn handle_items<T, U: PaginatedItemHandler<T>>(items: Vec<T>, handler: &Option<U>) -> (r: Vec<T>)
    ensures
        r@.len() == items@.len(),
        handler is None ==> r@ == items@,
        handler matches Some(h) ==> forall|i: int|
            0 <= i < r@.len() ==> h.handled(#[trigger] items@[i], r@[i]),
{
    match handler {
        None => items,
        Some(h) => {
            let ghost page = items@;
            let mut rest = items;
            let n = rest.len();
            let mut reversed: Vec<T> = Vec::new();
            while rest.len() > 0
                invariant
                    n == page.len(),
                    rest@.len() + reversed@.len() == n,
                    rest@ == page.subrange(0, rest@.len() as int),
                    forall|k: int| 0 <= k < reversed@.len() ==> #[trigger] reversed@[k] == page[n - 1 - k],
                decreases rest@.len(),
            {
                let x = rest.pop().unwrap();
                proof {
                    assert(rest@ =~= page.subrange(0, rest@.len() as int));
                }
                reversed.push(x);
            }
            let mut out: Vec<T> = Vec::new();
            while reversed.len() > 0
                invariant
                    n == page.len(),
                    reversed@.len() + out@.len() == n,
                    forall|k: int| 0 <= k < reversed@.len() ==> #[trigger] reversed@[k] == page[n - 1 - k],
                    forall|i: int| 0 <= i < out@.len() ==> h.handled(#[trigger] page[i], out@[i]),
                decreases reversed@.len(),
            {
                let mut x = reversed.pop().unwrap();
                h.handle(&mut x);
                out.push(x);
            }
            out
        },
    }
}

} // verus!
