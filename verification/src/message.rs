//! Requests as the handler reads them, and the responses it gives.

use crate::headers::{header_seq, HeaderSeq};
use vstd::prelude::*;

verus! {

/// The request methods that the handler tells apart.
#[derive(Clone, Copy, Debug, PartialEq, Eq, Structural)]
pub enum Method {
    /// `GET`: a file is asked for.
    Get,
    /// `OPTIONS`: a preflight check.
    Options,
    /// Every other method.
    Other,
}

/// The method that a method name stands for. Names are case-sensitive.
pub open spec fn method_named(name: Seq<char>) -> Method {
    if name == "GET"@ {
        Method::Get
    } else if name == "OPTIONS"@ {
        Method::Options
    } else {
        Method::Other
    }
}

impl Method {
    /// The method that `name` stands for.
    pub fn from_name(name: &str) -> (method: Method)
        ensures
            method == method_named(name@),
    {
        let name = name.to_owned();
        if name == "GET".to_owned() {
            Method::Get
        } else if name == "OPTIONS".to_owned() {
            Method::Options
        } else {
            Method::Other
        }
    }
}

/// The mathematical model of a [`Request`].
pub struct RequestView {
    /// The request method.
    pub method: Method,
    /// The request target: a path, and behind it possibly `?` and a query.
    pub target: Seq<char>,
}

/// What the handler reads of an incoming request.
#[derive(Clone, Debug, PartialEq, Eq)]
pub struct Request {
    /// The request method.
    pub method: Method,
    /// The request target: a path, and behind it possibly `?` and a query,
    /// which is ignored.
    pub target: String,
}

impl View for Request {
    type V = RequestView;

    open spec fn view(&self) -> RequestView {
        RequestView { method: self.method, target: self.target@ }
    }
}

/// The mathematical model of a [`Response`].
pub struct ResponseView {
    /// The status code.
    pub status: u16,
    /// The headers, in sending order.
    pub headers: HeaderSeq,
    /// The body.
    pub body: Seq<u8>,
}

/// An outgoing response.
#[derive(Clone, Debug, PartialEq, Eq)]
pub struct Response {
    /// The status code.
    pub status: u16,
    /// The headers, in sending order.
    pub headers: Vec<(String, String)>,
    /// The body.
    pub body: Vec<u8>,
}

impl View for Response {
    type V = ResponseView;

    open spec fn view(&self) -> ResponseView {
        ResponseView { status: self.status, headers: header_seq(self.headers@), body: self.body@ }
    }
}

/// Why a response was given; one per branch of the handler.
#[derive(Clone, Copy, Debug, PartialEq, Eq, Structural)]
pub enum Reason {
    /// The requested path begins with a dot.
    InvalidPath,
    /// The requested file was read and is sent.
    FileServed,
    /// The requested file is there but could not be read.
    ReadFailed,
    /// A preflight check was answered.
    Preflight,
    /// Nothing matched the request.
    NotFound,
}

/// The short text that stands for a reason in a log line.
pub open spec fn reason_tag(reason: Reason) -> Seq<char> {
    match reason {
        Reason::InvalidPath => "requested invalid path"@,
        Reason::FileServed => "requested file path"@,
        Reason::ReadFailed => "requested file could not be read"@,
        Reason::Preflight => ""@,
        Reason::NotFound => "requested address not found"@,
    }
}

impl Reason {
    /// The short text that stands for this reason in a log line.
    pub fn tag(&self) -> (text: &'static str)
        ensures
            text@ == reason_tag(*self),
    {
        match self {
            Reason::InvalidPath => "requested invalid path",
            Reason::FileServed => "requested file path",
            Reason::ReadFailed => "requested file could not be read",
            Reason::Preflight => "",
            Reason::NotFound => "requested address not found",
        }
    }
}

/// The mathematical model of a [`Reply`].
pub struct ReplyView {
    /// The response.
    pub response: ResponseView,
    /// The branch that gave it.
    pub reason: Reason,
}

/// A response together with the reason for it.
#[derive(Clone, Debug, PartialEq, Eq)]
pub struct Reply {
    /// The response to send.
    pub response: Response,
    /// The branch that gave it.
    pub reason: Reason,
}

impl View for Reply {
    type V = ReplyView;

    open spec fn view(&self) -> ReplyView {
        ReplyView { response: self.response@, reason: self.reason }
    }
}

} // verus!
