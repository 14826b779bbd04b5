use crate::address::ServerAddress;
use crate::method::Method;
use crate::protocol;
use crate::text::push_decimal;
use vstd::prelude::*;
use vstd::string::StringExecFns;

verus! {

/// One header of a request.
#[derive(Debug, PartialEq, Eq)]
pub struct Header {
    pub name: String,
    pub value: String,
}

impl View for Header {
    type V = (Seq<char>, Seq<char>);

    open spec fn view(&self) -> (Seq<char>, Seq<char>) {
        (self.name@, self.value@)
    }
}

/// A request to the admin interface of a mock server, as plain values: what
/// the transport is to send.
#[derive(Debug, PartialEq, Eq)]
pub struct AdminRequest {
    pub method: Method,
    pub url: String,
    pub headers: Vec<Header>,
    pub body: String,
}

/// The model of an `AdminRequest`.
pub struct AdminRequestView {
    pub method: Method,
    pub url: Seq<char>,
    pub headers: Seq<(Seq<char>, Seq<char>)>,
    pub body: Seq<char>,
}

impl View for AdminRequest {
    type V = AdminRequestView;

    open spec fn view(&self) -> AdminRequestView {
        AdminRequestView {
            method: self.method,
            url: self.url@,
            headers: self.headers@.map_values(|h: Header| h@),
            body: self.body@,
        }
    }
}

impl AdminRequest {
    /// A request without headers and with an empty body.
    pub fn bare(method: Method, url: String) -> (r: Self)
        ensures
            r@ == protocol::bare_request(method, url@),
    {
        let r = AdminRequest { method, url, headers: Vec::new(), body: String::new() };
        assert(r@.headers =~= Seq::empty());
        r
    }

    /// A request that carries `json` and says so in its one header.
    pub fn json(method: Method, url: String, json: String) -> (r: Self)
        ensures
            r@ == protocol::json_request(method, url@, json@),
    {
        let mut headers: Vec<Header> = Vec::new();
        headers.push(
            Header {
                name: String::from_str("content-type"),
                value: String::from_str("application/json"),
            },
        );
        let r = AdminRequest { method, url, headers, body: json };
        assert(r@.headers =~= seq![("content-type"@, "application/json"@)]);
        r
    }
}

/// The URL of a resource of the admin interface of the server at `addr`.
pub fn admin_url(addr: &ServerAddress, resource: &str) -> (r: String)
    ensures
        r@ == protocol::admin_url(addr@, resource@),
{
    let mut url = String::from_str("http://");
    addr.push_authority(&mut url);
    url.append("/__httpmock__/");
    url.append(resource);
    assert(url@ =~= protocol::admin_url(addr@, resource@));
    url
}

/// The URL of one mock on the server at `addr`.
pub fn mock_url(addr: &ServerAddress, mock_id: usize) -> (r: String)
    ensures
        r@ == protocol::admin_url(addr@, protocol::mock_resource(mock_id)),
{
    let mut url = String::from_str("http://");
    addr.push_authority(&mut url);
    url.append("/__httpmock__/");
    url.append("mocks/");
    push_decimal(&mut url, mock_id as u64);
    assert(url@ =~= protocol::admin_url(addr@, protocol::mock_resource(mock_id)));
    url
}

/// `lead`, then `cause`.
pub fn with_cause(lead: &str, cause: &str) -> (r: String)
    ensures
        r@ == lead@ + cause@,
{
    let mut message = String::from_str(lead);
    message.append(cause);
    message
}

/// The text of an unexpected status.
pub fn status_failure(lead: &str, status: u16, body: &str, tail: &str) -> (r: String)
    ensures
        r@ == protocol::status_failure(lead@, status, body@, tail@),
{
    let mut message = String::from_str(lead);
    push_decimal(&mut message, status as u64);
    message.append(", message = ");
    message.append(body);
    message.append(tail);
    message
}

/// What the transport hands back: the status and the body of the response, or
/// the text of the failure.
pub type Reply = Result<(u16, String), String>;

/// The model of a `Reply`.
pub type ReplyView = Result<(u16, Seq<char>), Seq<char>>;

/// A result whose failure text is taken by its view.
pub open spec fn failure_view<T>(r: Result<T, String>) -> Result<T, Seq<char>> {
    match r {
        Ok(v) => Ok(v),
        Err(e) => Err(e@),
    }
}

/// A result whose text is taken by its view on both sides.
pub open spec fn text_view(r: Result<String, String>) -> Result<Seq<char>, Seq<char>> {
    match r {
        Ok(v) => Ok(v@),
        Err(e) => Err(e@),
    }
}

/// The model of a reply.
pub open spec fn reply_view(r: Reply) -> ReplyView {
    match r {
        Ok((status, body)) => Ok((status, body@)),
        Err(e) => Err(e@),
    }
}

/// How far an exchange with a remote server has come: the answer to the action
/// that was asked for last. `D` is the type that a response body is decoded
/// into.
#[derive(Debug, PartialEq, Eq)]
pub enum Progress<D> {
    /// Nothing has happened yet.
    Start,
    /// The payload was turned into JSON, or could not be.
    Encoded(Result<String, String>),
    /// The transport came back.
    Replied(Reply),
    /// The response body was decoded, or could not be.
    Decoded(Result<D, String>),
}

/// The model of a `Progress`.
pub enum ProgressView<D> {
    Start,
    Encoded(Result<Seq<char>, Seq<char>>),
    Replied(ReplyView),
    Decoded(Result<D, Seq<char>>),
}

impl<D> View for Progress<D> {
    type V = ProgressView<D>;

    open spec fn view(&self) -> ProgressView<D> {
        match *self {
            Progress::Start => ProgressView::Start,
            Progress::Encoded(r) => ProgressView::Encoded(text_view(r)),
            Progress::Replied(r) => ProgressView::Replied(reply_view(r)),
            Progress::Decoded(r) => ProgressView::Decoded(failure_view(r)),
        }
    }
}

/// What is to happen next in an exchange. `T` is what the operation yields.
#[derive(Debug, PartialEq, Eq)]
pub enum Next<T> {
    /// Turn the payload into JSON and come back with `Progress::Encoded`.
    Encode,
    /// Send the request and come back with `Progress::Replied`.
    Send(AdminRequest),
    /// Decode this response body and come back with `Progress::Decoded`.
    Decode(String),
    /// The operation is over, with this result.
    Done(Result<T, String>),
}

/// The model of a `Next`.
pub enum NextView<T> {
    Encode,
    Send(AdminRequestView),
    Decode(Seq<char>),
    Done(Result<T, Seq<char>>),
}

impl<T> View for Next<T> {
    type V = NextView<T>;

    open spec fn view(&self) -> NextView<T> {
        match *self {
            Next::Encode => NextView::Encode,
            Next::Send(request) => NextView::Send(request@),
            Next::Decode(body) => NextView::Decode(body@),
            Next::Done(r) => NextView::Done(failure_view(r)),
        }
    }
}

} // verus!
