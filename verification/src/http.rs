//! One HTTP exchange as plain values.
//!
//! The crate never touches the network. It composes a [`Request`] for the
//! caller to send, and reads the [`Response`] that the caller got back.

use vstd::prelude::*;
use crate::text::{ascii_lowered, eq_ignore_ascii_case};

verus! {

/// The HTTP method of a request.
#[derive(Debug, Clone, Copy, PartialEq, Eq)]
pub enum Method {
    Get,
    Post,
}

/// A request that is ready to be sent.
#[derive(Debug, Clone, PartialEq, Eq)]
pub struct Request {
    pub method: Method,
    /// The API root followed by the path of the endpoint.
    pub url: String,
    /// The query parameters, in the order in which they are sent.
    pub query: Vec<(String, String)>,
    /// The user token, for the requests that are made in a user's name.
    pub token: Option<String>,
    /// The JSON text to send as the body.
    pub body: Option<String>,
}

/// The mathematical value of a [`Request`].
pub struct RequestModel {
    pub method: Method,
    pub url: Seq<char>,
    pub query: Seq<(Seq<char>, Seq<char>)>,
    pub token: Option<Seq<char>>,
    pub body: Option<Seq<char>>,
}

impl DeepView for Request {
    type V = RequestModel;

    open spec fn deep_view(&self) -> RequestModel {
        RequestModel {
            method: self.method,
            url: self.url.deep_view(),
            query: self.query.deep_view(),
            token: self.token.deep_view(),
            body: self.body.deep_view(),
        }
    }
}

impl RequestModel {
    /// Whether no two query parameters have the same name.
    pub open spec fn distinct_names(self) -> bool {
        forall|a: int, b: int|
            0 <= a < b < self.query.len() ==> (#[trigger] self.query[a]).0 != (
            #[trigger] self.query[b]).0
    }

    /// Whether the request is one that an operation of the API is made with:
    /// a `GET` without a body, or a `POST` of a body in the name of a user,
    /// and no query parameter twice.
    pub open spec fn well_formed(self) -> bool {
        &&& self.distinct_names()
        &&& self.method == Method::Get ==> self.body is None
        &&& self.method == Method::Post ==> self.body is Some && self.token is Some
    }

    /// The value of the `Authorization` header: the word `Token`, a space and
    /// the user token. A request without a token has no such header.
    pub open spec fn authorization(self) -> Option<Seq<char>> {
        match self.token {
            Some(token) => Some("Token "@ + token),
            None => None,
        }
    }
}

impl Request {
    /// The value to send in the `Authorization` header, if the request
    /// carries a token.
    pub fn authorization(&self) -> (r: Option<String>)
        ensures
            r.deep_view() == self.deep_view().authorization(),
    {
        match &self.token {
            Some(token) => {
                let mut value = "Token ".to_owned();
                value.append(token.as_str());
                Some(value)
            },
            None => None,
        }
    }
}

/// A response as it came back: the status code, the headers in the order in
/// which they were received, and the body as text.
#[derive(Debug, Clone, PartialEq, Eq)]
pub struct Response {
    pub status: u16,
    pub headers: Vec<(String, String)>,
    pub body: String,
}

/// The mathematical value of a [`Response`].
pub struct ResponseModel {
    pub status: u16,
    pub headers: Seq<(Seq<char>, Seq<char>)>,
    pub body: Seq<char>,
}

impl DeepView for Response {
    type V = ResponseModel;

    open spec fn deep_view(&self) -> ResponseModel {
        ResponseModel {
            status: self.status,
            headers: self.headers.deep_view(),
            body: self.body.deep_view(),
        }
    }
}

/// The value of the first header called `name`. Header names are compared
/// without regard to the case of ASCII letters.
pub open spec fn header_value(headers: Seq<(Seq<char>, Seq<char>)>, name: Seq<char>) -> Option<
    Seq<char>,
>
    decreases headers.len(),
{
    if headers.len() == 0 {
        None
    } else if ascii_lowered(headers[0].0) == ascii_lowered(name) {
        Some(headers[0].1)
    } else {
        header_value(headers.drop_first(), name)
    }
}

impl Response {
    /// The value of the first header called `name`, if there is one.
    pub fn header(&self, name: &str) -> (r: Option<&str>)
        ensures
            r.deep_view() == header_value(self.deep_view().headers, name@),
    {
        let ghost all = self.headers.deep_view();
        assert(all.skip(0) == all);
        for i in 0..self.headers.len()
            invariant
                all == self.headers.deep_view(),
                header_value(all.skip(i as int), name@) == header_value(all, name@),
        {
            proof {
                assert(all.skip(i as int).drop_first() == all.skip(i + 1));
                assert(all.skip(i as int)[0] == all[i as int]);
            }
            if eq_ignore_ascii_case(self.headers[i].0.as_str(), name) {
                return Some(self.headers[i].1.as_str());
            }
        }
        None
    }
}

} // verus!
