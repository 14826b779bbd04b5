use crate::address::ServerAddressView;
use crate::data::{MockDefinition, MockRef};
use crate::exchange::{AdminRequestView, NextView, ProgressView, ReplyView};
use crate::method::Method;
use crate::text::decimal;
use vstd::prelude::*;
use vstd::utf8::{decode_utf8, valid_utf8};

verus! {

// The model of the admin protocol. Each operation is a function from the
// event that came last to the next action. An operation asks for what it
// still lacks: where the event is none that it has a use for, it asks for
// its first action again.

/// The URL of a resource of the admin interface.
pub open spec fn admin_url(addr: ServerAddressView, resource: Seq<char>) -> Seq<char> {
    "http://"@ + addr.authority() + "/__httpmock__/"@ + resource
}

/// The resource of one mock.
pub open spec fn mock_resource(mock_id: usize) -> Seq<char> {
    "mocks/"@ + decimal(mock_id as nat)
}

/// A request without headers and with an empty body.
pub open spec fn bare_request(method: Method, url: Seq<char>) -> AdminRequestView {
    AdminRequestView { method, url, headers: Seq::empty(), body: Seq::empty() }
}

/// A request that carries JSON.
pub open spec fn json_request(method: Method, url: Seq<char>, json: Seq<char>) -> AdminRequestView {
    AdminRequestView {
        method,
        url,
        headers: seq![("content-type"@, "application/json"@)],
        body: json,
    }
}

/// The text of an unexpected status: the status in decimal and the body as it
/// came, between `lead` and `tail`.
pub open spec fn status_failure(lead: Seq<char>, status: u16, body: Seq<char>, tail: Seq<char>) -> Seq<
    char,
> {
    lead + decimal(status as nat) + ", message = "@ + body + tail
}

/// The text with which a definition that embeds matcher functions is turned
/// down.
pub open spec fn unsupported_matchers() -> Seq<char> {
    "Anonymous function request matchers are not supported when using a remote mock server"@
}

/// Creating a mock: validate, encode, POST, expect 201, decode the reference.
pub open spec fn create_mock(
    addr: ServerAddressView,
    mock: MockDefinition,
    progress: ProgressView<MockRef>,
) -> NextView<MockRef> {
    if mock.embeds_matchers() {
        NextView::Done(Err(unsupported_matchers()))
    } else {
        match progress {
            ProgressView::Start => NextView::Encode,
            ProgressView::Encoded(Ok(json)) => NextView::Send(
                json_request(Method::POST, admin_url(addr, "mocks"@), json),
            ),
            ProgressView::Encoded(Err(cause)) => NextView::Done(
                Err("cannot serialize mock object to JSON: "@ + cause),
            ),
            ProgressView::Replied(Err(cause)) => NextView::Done(
                Err("cannot send request to mock server: "@ + cause),
            ),
            ProgressView::Replied(Ok((status, body))) => if status == 201 {
                NextView::Decode(body)
            } else {
                NextView::Done(
                    Err(
                        status_failure(
                            "Could not create mock. Mock server response: status = "@,
                            status,
                            body,
                            Seq::empty(),
                        ),
                    ),
                )
            },
            ProgressView::Decoded(Ok(mock_ref)) => NextView::Done(Ok(mock_ref)),
            ProgressView::Decoded(Err(cause)) => NextView::Done(
                Err("Cannot deserialize mock server response: "@ + cause),
            ),
        }
    }
}

/// Fetching a mock: GET by id, expect 200, decode the active mock.
pub open spec fn fetch_mock<A>(
    addr: ServerAddressView,
    mock_id: usize,
    progress: ProgressView<A>,
) -> NextView<A> {
    match progress {
        ProgressView::Replied(Err(cause)) => NextView::Done(
            Err("Cannot send request to mock server: "@ + cause),
        ),
        ProgressView::Replied(Ok((status, body))) => if status == 200 {
            NextView::Decode(body)
        } else {
            NextView::Done(
                Err(
                    status_failure(
                        "Could not create mock. Mock server response: status = "@,
                        status,
                        body,
                        Seq::empty(),
                    ),
                ),
            )
        },
        ProgressView::Decoded(Ok(active)) => NextView::Done(Ok(active)),
        ProgressView::Decoded(Err(cause)) => NextView::Done(
            Err("Cannot deserialize mock server response: "@ + cause),
        ),
        _ => NextView::Send(bare_request(Method::GET, admin_url(addr, mock_resource(mock_id)))),
    }
}

/// What a reply means to an operation that succeeds on the status `expected`
/// alone. A failure of the transport keeps its cause; another status is
/// reported between `lead` and `tail`.
pub open spec fn settle(expected: u16, lead: Seq<char>, tail: Seq<char>, reply: ReplyView) -> Result<
    (),
    Seq<char>,
> {
    match reply {
        Err(cause) => Err("Cannot send request to mock server: "@ + cause),
        Ok((status, body)) => if status == expected {
            Ok(())
        } else {
            Err(status_failure(lead, status, body, tail))
        },
    }
}

/// An operation with nothing to encode or decode: it sends `request` until a
/// reply is at hand, and the reply settles it.
pub open spec fn expect_status(
    request: AdminRequestView,
    expected: u16,
    lead: Seq<char>,
    tail: Seq<char>,
    progress: ProgressView<()>,
) -> NextView<()> {
    match progress {
        ProgressView::Replied(reply) => NextView::Done(settle(expected, lead, tail, reply)),
        _ => NextView::Send(request),
    }
}

/// Deleting one mock: DELETE by id, expect 202.
pub open spec fn delete_mock(
    addr: ServerAddressView,
    mock_id: usize,
    progress: ProgressView<()>,
) -> NextView<()> {
    expect_status(
        bare_request(Method::DELETE, admin_url(addr, mock_resource(mock_id))),
        202,
        "Could not delete mocks from server (status = "@,
        ")"@,
        progress,
    )
}

/// Deleting all mocks: DELETE on the collection, expect 202.
pub open spec fn delete_all_mocks(addr: ServerAddressView, progress: ProgressView<()>) -> NextView<
    (),
> {
    expect_status(
        bare_request(Method::DELETE, admin_url(addr, "mocks"@)),
        202,
        "Could not delete mocks from server (status = "@,
        ")"@,
        progress,
    )
}

/// Deleting the request history: DELETE, expect 202.
pub open spec fn delete_history(addr: ServerAddressView, progress: ProgressView<()>) -> NextView<
    (),
> {
    expect_status(
        bare_request(Method::DELETE, admin_url(addr, "history"@)),
        202,
        "Could not delete history from server (status = "@,
        ")"@,
        progress,
    )
}

/// Verifying: encode the criteria, POST, take 404 as "no match", expect 200
/// otherwise and decode the closest match.
pub open spec fn verify<C>(addr: ServerAddressView, progress: ProgressView<C>) -> NextView<
    Option<C>,
> {
    match progress {
        ProgressView::Start => NextView::Encode,
        ProgressView::Encoded(Ok(json)) => NextView::Send(
            json_request(Method::POST, admin_url(addr, "verify"@), json),
        ),
        ProgressView::Encoded(Err(cause)) => NextView::Done(
            Err("Cannot serialize mock object to JSON: "@ + cause),
        ),
        ProgressView::Replied(Err(cause)) => NextView::Done(
            Err("Cannot send request to mock server: "@ + cause),
        ),
        ProgressView::Replied(Ok((status, body))) => if status == 404 {
            NextView::Done(Ok(None))
        } else if status == 200 {
            NextView::Decode(body)
        } else {
            NextView::Done(
                Err(
                    status_failure(
                        "Could not execute verification (status = "@,
                        status,
                        body,
                        ")"@,
                    ),
                ),
            )
        },
        ProgressView::Decoded(Ok(closest)) => NextView::Done(Ok(Some(closest))),
        ProgressView::Decoded(Err(cause)) => NextView::Done(
            Err("cannot deserialize mock server response: "@ + cause),
        ),
    }
}

/// The health probe: GET, expect 200. Another status is a failure whose text
/// holds the status and the body as it came.
pub open spec fn ping(addr: ServerAddressView, progress: ProgressView<()>) -> NextView<()> {
    match progress {
        ProgressView::Replied(Err(cause)) => NextView::Done(
            Err("cannot send request to mock server: "@ + cause),
        ),
        ProgressView::Replied(Ok((status, body))) => if status == 200 {
            NextView::Done(Ok(()))
        } else {
            NextView::Done(
                Err(
                    status_failure(
                        "Could not create mock. Mock server response: status = "@,
                        status,
                        body,
                        Seq::empty(),
                    ),
                ),
            )
        },
        _ => NextView::Send(bare_request(Method::GET, admin_url(addr, "ping"@))),
    }
}

/// The text with which std reports why `bytes` are not UTF-8.
pub uninterp spec fn utf8_failure(bytes: Seq<u8>) -> Seq<char>;

/// What the client makes of a finished transfer: the status with the body as
/// text, or one failure text for whatever went wrong, with its cause.
pub open spec fn read_transfer(transfer: Result<(u16, Seq<u8>), Seq<char>>) -> ReplyView {
    match transfer {
        Err(cause) => Err("cannot send request to mock server: "@ + cause),
        Ok((status, bytes)) => if valid_utf8(bytes) {
            Ok((status, decode_utf8(bytes)))
        } else {
            Err("cannot send request to mock server: "@ + utf8_failure(bytes))
        },
    }
}

} // verus!
