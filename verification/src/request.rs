//! Requests to the remote services, as plain values for the caller to send.

use vstd::prelude::*;
use crate::schedule::{Event, EventView};
use crate::task::{Draft, DraftView, Task, TaskView};

verus! {

/// What a request does to the resource at its address.
#[derive(Clone, Copy, Debug, PartialEq, Eq, Structural)]
pub enum Method {
    Get,
    Post,
    Put,
    Delete,
}

/// What a request carries.
#[derive(Debug)]
pub enum Body {
    Empty,
    /// A calendar event to create or to put in place of another.
    Event(Event),
    /// A task to create.
    Draft(Draft),
    /// A task to put in place of the one with its id.
    Task(Task),
}

/// A [`Body`] as mathematical values.
pub enum BodyView {
    Empty,
    Event(EventView),
    Draft(DraftView),
    Task(TaskView),
}

impl View for Body {
    type V = BodyView;

    open spec fn view(&self) -> BodyView {
        match self {
            Body::Empty => BodyView::Empty,
            Body::Event(event) => BodyView::Event(event@),
            Body::Draft(draft) => BodyView::Draft(draft@),
            Body::Task(task) => BodyView::Task(task@),
        }
    }
}

/// One request: the method, the address, the pairs of the query string in
/// order, and the body.
#[derive(Debug)]
pub struct Request {
    pub method: Method,
    pub url: String,
    pub query: Vec<(String, String)>,
    pub body: Body,
}

/// A [`Request`] as mathematical values.
pub struct RequestView {
    pub method: Method,
    pub url: Seq<char>,
    pub query: Seq<(Seq<char>, Seq<char>)>,
    pub body: BodyView,
}

impl View for Request {
    type V = RequestView;

    open spec fn view(&self) -> RequestView {
        RequestView {
            method: self.method,
            url: self.url@,
            query: self.query.deep_view(),
            body: self.body@,
        }
    }
}

/// The address of the item `id` under `base`.
pub open spec fn item_url(base: Seq<char>, id: Seq<char>) -> Seq<char> {
    base + seq!['/'] + id
}

impl Request {
    /// A request without a query string.
    pub fn new(method: Method, url: String, body: Body) -> (r: Self)
        ensures
            r@ == (RequestView { method, url: url@, query: Seq::empty(), body: body@ }),
    {
        let r = Self { method, url, query: Vec::new(), body };
        assert(r.query.deep_view() =~= Seq::empty());
        r
    }

    /// The address of the item `id` under `base`: the two joined by a slash.
    pub fn item(base: &str, id: &str) -> (url: String)
        ensures
            url@ == item_url(base@, id@),
    {
        proof {
            reveal_strlit("/");
        }
        let mut url = crate::text::join(base, "/");
        url.append(id);
        assert("/"@ =~= seq!['/']);
        url
    }
}

} // verus!
