//! Typed classification of HTTP client errors, used by the component
//! that reports door state to the remote service.  An error records what
//! part of the exchange it arose from, an optional source error, and an
//! optional related URL that can be stripped of sensitive information.

use vstd::prelude::*;

verus! {

/// Marker for source-error types an HTTP failure can carry.
pub trait HttpError {

}

/// What part of an HTTP exchange an error arose from.
#[derive(Clone, Copy, Debug, PartialEq, Eq, Structural)]
pub enum Kind {
    /// Building the request failed.
    Builder,
    /// Sending the request failed.
    Request,
    /// Following a redirect failed.
    Redirect,
    /// The response carried an error status code.
    Status(u16),
    /// The request or response body failed.
    Body,
    /// Decoding the response body failed.
    Decode,
    /// Upgrading the connection failed.
    Upgrade,
}

/// An HTTP client error: its kind, an optional source error, and an
/// optional related URL.
pub struct Error<E: HttpError> {
    kind: Kind,
    source: Option<E>,
    url: Option<String>,
}

impl<E: HttpError> Error<E> {
    /// The kind of the error.
    pub closed spec fn kind_of(&self) -> Kind {
        self.kind
    }

    /// The related URL, if one is attached.
    pub closed spec fn url_of(&self) -> Option<Seq<char>> {
        match self.url {
            Some(u) => Some(u@),
            None => None,
        }
    }

    /// The source error this one wraps, if any.
    pub closed spec fn source_of(&self) -> Option<E> {
        self.source
    }

    /// An error of the given kind with an optional source and no URL.
    pub fn new(kind: Kind, source: Option<E>) -> (r: Error<E>)
        ensures
            r.kind_of() == kind,
            r.url_of() is None,
            r.source_of() == source,
    {
        Error { kind, source, url: None }
    }

    /// Returns the source error this one wraps, if any.
    pub fn source(&self) -> (r: Option<&E>)
        ensures
            r is Some <==> self.source_of() is Some,
            r matches Some(e) ==> self.source_of() == Some(*e),
    {
        match &self.source {
            Some(e) => Some(e),
            None => None,
        }
    }

    /// Returns the URL related to this error, if one is attached.
    pub fn url(&self) -> (r: Option<&String>)
        ensures
            r is Some <==> self.url_of() is Some,
            r matches Some(u) ==> self.url_of() == Some(u@),
    {
        match &self.url {
            Some(u) => Some(u),
            None => None,
        }
    }

    /// Attaches a URL related to this error, overwriting any existing
    /// one.
    pub fn with_url(self, url: String) -> (r: Error<E>)
        ensures
            r.kind_of() == self.kind_of(),
            r.source_of() == self.source_of(),
            r.url_of() == Some(url@),
    {
        Error { kind: self.kind, source: self.source, url: Some(url) }
    }

    /// Strips the related URL from this error, for when it carries
    /// sensitive information.
    pub fn without_url(self) -> (r: Error<E>)
        ensures
            r.kind_of() == self.kind_of(),
            r.source_of() == self.source_of(),
            r.url_of() is None,
    {
        Error { kind: self.kind, source: self.source, url: None }
    }

    /// Returns true if the error came from building the request.
    pub fn is_builder(&self) -> (r: bool)
        ensures
            r == (self.kind_of() == Kind::Builder),
    {
        matches!(self.kind, Kind::Builder)
    }

    /// Returns true if the error came from following a redirect.
    pub fn is_redirect(&self) -> (r: bool)
        ensures
            r == (self.kind_of() == Kind::Redirect),
    {
        matches!(self.kind, Kind::Redirect)
    }

    /// Returns true if the error came from an error status code.
    pub fn is_status(&self) -> (r: bool)
        ensures
            r == (self.kind_of() is Status),
    {
        matches!(self.kind, Kind::Status(_))
    }

    /// Returns true if the error is related to sending the request.
    pub fn is_request(&self) -> (r: bool)
        ensures
            r == (self.kind_of() == Kind::Request),
    {
        matches!(self.kind, Kind::Request)
    }

    /// Returns true if the error is related to the request or response
    /// body.
    pub fn is_body(&self) -> (r: bool)
        ensures
            r == (self.kind_of() == Kind::Body),
    {
        matches!(self.kind, Kind::Body)
    }

    /// Returns true if the error is related to decoding the response
    /// body.
    pub fn is_decode(&self) -> (r: bool)
        ensures
            r == (self.kind_of() == Kind::Decode),
    {
        matches!(self.kind, Kind::Decode)
    }

    /// Short description of what part of the exchange failed, for
    /// logging by the embedding application.
    pub fn describe(&self) -> (r: &'static str)
        ensures
            r@.len() > 0,
    {
        proof {
            reveal_strlit("builder error");
            reveal_strlit("error sending request");
            reveal_strlit("error following redirect");
            reveal_strlit("HTTP error status");
            reveal_strlit("request or response body error");
            reveal_strlit("error decoding response body");
            reveal_strlit("error upgrading connection");
        }
        match self.kind {
            Kind::Builder => "builder error",
            Kind::Request => "error sending request",
            Kind::Redirect => "error following redirect",
            Kind::Status(_) => "HTTP error status",
            Kind::Body => "request or response body error",
            Kind::Decode => "error decoding response body",
            Kind::Upgrade => "error upgrading connection",
        }
    }

    /// Returns the status code, if the error came from an error status.
    pub fn status(&self) -> (r: Option<u16>)
        ensures
            r is Some <==> self.kind_of() is Status,
            r matches Some(c) ==> self.kind_of() == Kind::Status(c),
    {
        match self.kind {
            Kind::Status(code) => Some(code),
            _ => None,
        }
    }
}

/// An error from building a request, wrapping its source.
pub fn builder<E: HttpError>(e: E) -> (r: Error<E>)
    ensures
        r.kind_of() == Kind::Builder,
        r.source_of() == Some(e),
        r.url_of() is None,
{
    Error::new(Kind::Builder, Some(e))
}

/// An error from a request or response body, wrapping its source.
pub fn body<E: HttpError>(e: E) -> (r: Error<E>)
    ensures
        r.kind_of() == Kind::Body,
        r.source_of() == Some(e),
        r.url_of() is None,
{
    Error::new(Kind::Body, Some(e))
}

/// An error from decoding a response body, wrapping its source.
pub fn decode<E: HttpError>(e: E) -> (r: Error<E>)
    ensures
        r.kind_of() == Kind::Decode,
        r.source_of() == Some(e),
        r.url_of() is None,
{
    Error::new(Kind::Decode, Some(e))
}

/// An error from sending a request, wrapping its source.
pub fn request<E: HttpError>(e: E) -> (r: Error<E>)
    ensures
        r.kind_of() == Kind::Request,
        r.source_of() == Some(e),
        r.url_of() is None,
{
    Error::new(Kind::Request, Some(e))
}

/// An error from following a redirect, wrapping its source and the URL
/// the redirect pointed at.
pub fn redirect<E: HttpError>(e: E, url: String) -> (r: Error<E>)
    ensures
        r.kind_of() == Kind::Redirect,
        r.source_of() == Some(e),
        r.url_of() == Some(url@),
{
    Error::new(Kind::Redirect, Some(e)).with_url(url)
}

/// An error recording a response's error status code and its URL.
pub fn status_code<E: HttpError>(url: String, status: u16) -> (r: Error<E>)
    ensures
        r.kind_of() == Kind::Status(status),
        r.source_of() is None,
        r.url_of() == Some(url@),
{
    Error::new(Kind::Status(status), None).with_url(url)
}

} // verus!
