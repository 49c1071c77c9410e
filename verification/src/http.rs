//! Plain data carried between the engine and the transport.
//!
//! The engine never performs an exchange itself: it hands the caller an
//! [`HttpRequest`] describing the next exchange, and the caller hands back
//! an [`HttpResponse`] with the response's final resolved address, its
//! headers, and its body both as transport-decoded text and as raw bytes.
//! Each type has a ghost model over character sequences, which is what the
//! engine's contracts speak about.

use vstd::prelude::*;

verus! {

/// One header, as a plain name/value pair of strings.
#[derive(Debug, Clone, PartialEq, Eq)]
pub struct HttpHeader {
    pub name: String,
    pub value: String,
}

impl View for HttpHeader {
    type V = (Seq<char>, Seq<char>);

    open spec fn view(&self) -> (Seq<char>, Seq<char>) {
        (self.name@, self.value@)
    }
}

/// The ghost image of a header list: name/value character sequences.
pub open spec fn headers_view(hs: Seq<HttpHeader>) -> Seq<(Seq<char>, Seq<char>)> {
    hs.map_values(|h: HttpHeader| h@)
}

/// The ghost image of a form-field list.
pub open spec fn form_view(fs: Seq<(String, String)>) -> Seq<(Seq<char>, Seq<char>)> {
    fs.map_values(|f: (String, String)| (f.0@, f.1@))
}

/// Request method; the pipeline only ever issues these two.
#[derive(Debug, Clone, Copy, PartialEq, Eq, Structural)]
pub enum Method {
    Get,
    Post,
}

/// What to send as the request body.
#[derive(Debug, Clone, PartialEq, Eq)]
pub enum RequestBody {
    /// No body and no content-length header.
    Empty,
    /// No body, but an explicit zero content-length header.
    ZeroLength,
    /// URL-encoded form fields.
    Form(Vec<(String, String)>),
}

/// Ghost image of a request body.
#[verifier::ext_equal]
pub enum BodyModel {
    Empty,
    ZeroLength,
    Form(Seq<(Seq<char>, Seq<char>)>),
}

impl RequestBody {
    pub open spec fn model(&self) -> BodyModel {
        match self {
            RequestBody::Empty => BodyModel::Empty,
            RequestBody::ZeroLength => BodyModel::ZeroLength,
            RequestBody::Form(fs) => BodyModel::Form(form_view(fs@)),
        }
    }
}

/// One exchange the engine asks the caller to perform.
#[derive(Debug, Clone, PartialEq, Eq)]
pub struct HttpRequest {
    pub method: Method,
    /// Absolute address to request.
    pub url: String,
    /// Headers to set on the request.
    pub headers: Vec<HttpHeader>,
    pub body: RequestBody,
    /// Whether the request takes part in the session: when false the
    /// exchange is performed outside the cookie-holding client.
    pub use_session: bool,
}

/// Ghost image of a request.
#[verifier::ext_equal]
pub struct RequestModel {
    pub method: Method,
    pub url: Seq<char>,
    pub headers: Seq<(Seq<char>, Seq<char>)>,
    pub body: BodyModel,
    pub use_session: bool,
}

impl HttpRequest {
    pub open spec fn model(&self) -> RequestModel {
        RequestModel {
            method: self.method,
            url: self.url@,
            headers: headers_view(self.headers@),
            body: self.body.model(),
            use_session: self.use_session,
        }
    }
}

/// What came back from one exchange.
#[derive(Debug, Clone, PartialEq, Eq)]
pub struct HttpResponse {
    /// The final resolved address of the response, after any redirects.
    pub final_url: String,
    /// Response headers; repeated names stay repeated.
    pub headers: Vec<HttpHeader>,
    /// The body decoded as text by the transport.
    pub text: String,
    /// The raw body bytes.
    pub body: Vec<u8>,
}

/// Ghost image of a response.
#[verifier::ext_equal]
pub struct ResponseModel {
    pub final_url: Seq<char>,
    pub headers: Seq<(Seq<char>, Seq<char>)>,
    pub text: Seq<char>,
    pub body: Seq<u8>,
}

impl HttpResponse {
    pub open spec fn model(&self) -> ResponseModel {
        ResponseModel {
            final_url: self.final_url@,
            headers: headers_view(self.headers@),
            text: self.text@,
            body: self.body@,
        }
    }
}

/// A cookie the caller is asked to inject into its cookie store.
#[derive(Debug, Clone, PartialEq, Eq)]
pub struct CookieDirective {
    pub name: String,
    pub value: String,
    pub domain: String,
    pub path: String,
}

/// Ghost image of a cookie directive.
#[verifier::ext_equal]
pub struct CookieModel {
    pub name: Seq<char>,
    pub value: Seq<char>,
    pub domain: Seq<char>,
    pub path: Seq<char>,
}

impl CookieDirective {
    pub open spec fn model(&self) -> CookieModel {
        CookieModel {
            name: self.name@,
            value: self.value@,
            domain: self.domain@,
            path: self.path@,
        }
    }
}

} // verus!
