//! HTTP requests as data: what the core asks the host to send, and what the
//! host reports back.

use crate::text::same_text;
use vstd::prelude::*;

verus! {

/// Request method.
#[derive(Clone, Copy, Debug, PartialEq, Eq, Structural)]
pub enum HttpMethod {
    Get,
    Post,
}

/// The body the requester expects to receive, which tells the host how to
/// read it and which reply to hand back.
#[derive(Clone, Copy, Debug, PartialEq, Eq, Structural)]
pub enum Expect {
    /// The JSON document of a token exchange.
    AccessTokens,
    /// The JSON document that describes a user.
    User,
    /// The raw body as text.
    Text,
}

/// A list of name and value pairs, as the sequence of their characters.
pub type Pairs = Seq<(Seq<char>, Seq<char>)>;

/// A request for the HTTP capability.
#[derive(Debug, PartialEq, Eq)]
pub struct HttpRequest {
    pub method: HttpMethod,
    pub url: String,
    /// Header names and values, in the order they are to be set.
    pub headers: Vec<(String, String)>,
    /// Query parameters, in the order they are to be appended to the URL.
    pub query: Vec<(String, String)>,
    pub expect: Expect,
}

/// The mathematical content of an [`HttpRequest`].
pub ghost struct HttpRequestView {
    pub method: HttpMethod,
    pub url: Seq<char>,
    pub headers: Pairs,
    pub query: Pairs,
    pub expect: Expect,
}

impl View for HttpRequest {
    type V = HttpRequestView;

    open spec fn view(&self) -> HttpRequestView {
        HttpRequestView {
            method: self.method,
            url: self.url@,
            headers: self.headers.deep_view(),
            query: self.query.deep_view(),
            expect: self.expect,
        }
    }
}

impl HttpRequestView {
    /// The value of the first header called `name`, if there is one.
    pub open spec fn header(self, name: Seq<char>) -> Option<Seq<char>> {
        first_value(self.headers, name)
    }

    /// The value of the first query parameter called `name`, if there is one.
    pub open spec fn query_value(self, name: Seq<char>) -> Option<Seq<char>> {
        first_value(self.query, name)
    }
}

/// The value of the first pair in `pairs` whose name is `name`.
pub open spec fn first_value(pairs: Pairs, name: Seq<char>) -> Option<Seq<char>>
    decreases pairs.len(),
{
    if pairs.len() == 0 {
        None
    } else if pairs[0].0 == name {
        Some(pairs[0].1)
    } else {
        first_value(pairs.drop_first(), name)
    }
}

/// A failed HTTP exchange: a transport failure, a status outside 2xx, or a
/// body that could not be read.
#[derive(Debug, PartialEq, Eq)]
pub struct HttpError {
    pub message: String,
}

impl View for HttpError {
    type V = Seq<char>;

    open spec fn view(&self) -> Seq<char> {
        self.message@
    }
}

/// The outcome of an HTTP exchange, in a layout that can cross the boundary to
/// the host.
#[derive(Debug, PartialEq, Eq)]
pub enum HttpResult<T, E> {
    Success(T),
    Failure(E),
}

impl<T, E> HttpResult<T, E> {
    /// The same outcome as a `Result`.
    pub open spec fn as_result(self) -> Result<T, E> {
        match self {
            HttpResult::Success(value) => Ok(value),
            HttpResult::Failure(error) => Err(error),
        }
    }

    /// Wraps the outcome of an exchange.
    pub fn from(value: Result<T, E>) -> (r: Self)
        ensures
            r.as_result() == value,
    {
        match value {
            Ok(response) => HttpResult::Success(response),
            Err(error) => HttpResult::Failure(error),
        }
    }

    /// Unwraps the outcome into a `Result`.
    pub fn into_result(self) -> (r: Result<T, E>)
        ensures
            r == self.as_result(),
    {
        match self {
            HttpResult::Success(response) => Ok(response),
            HttpResult::Failure(error) => Err(error),
        }
    }
}

/// Whether two lists hold the same names and values in the same order.
pub fn same_pairs(a: &Vec<(String, String)>, b: &Vec<(String, String)>) -> (r: bool)
    ensures
        r == (a.deep_view() == b.deep_view()),
{
    if a.len() != b.len() {
        assert(a.deep_view().len() != b.deep_view().len());
        return false;
    }
    let mut i: usize = 0;
    while i < a.len()
        invariant
            i <= a.len(),
            a.len() == b.len(),
            forall|j: int| 0 <= j < i ==> a.deep_view()[j] == b.deep_view()[j],
        decreases a.len() - i,
    {
        if !same_text(a[i].0.as_str(), b[i].0.as_str()) || !same_text(
            a[i].1.as_str(),
            b[i].1.as_str(),
        ) {
            assert(a.deep_view()[i as int] != b.deep_view()[i as int]);
            return false;
        }
        i += 1;
    }
    assert(a.deep_view() =~= b.deep_view());
    true
}

/// An empty list of pairs.
pub fn no_pairs() -> (r: Vec<(String, String)>)
    ensures
        r.deep_view() == Seq::<(Seq<char>, Seq<char>)>::empty(),
{
    Vec::new()
}

/// Appends the pair of `name` and `value` to `pairs`.
pub fn push_pair(pairs: &mut Vec<(String, String)>, name: &str, value: &str)
    ensures
        final(pairs).deep_view() == old(pairs).deep_view().push((name@, value@)),
{
    pairs.push((name.to_owned(), value.to_owned()));
}

} // verus!
