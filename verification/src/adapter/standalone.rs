use crate::adapter::{InternalHttpClient, MockServerAdapter};
use crate::address::{ServerAddress, ServerAddressView};
use crate::data::{MockDefinition, MockRef};
use crate::exchange::{
    admin_url, mock_url, reply_view, status_failure, with_cause, AdminRequest, Next, Progress,
    Reply,
};
use crate::method::Method;
use crate::protocol;
use vstd::prelude::*;
use vstd::string::StringExecFns;

verus! {

/// The adapter for a mock server that runs as a process of its own and is
/// spoken to through its admin interface. Each operation is a function from
/// what the exchange has brought so far to what is to happen next; whoever
/// drives it does the encoding, the sending and the decoding.
#[derive(Debug)]
pub struct RemoteMockServerAdapter {
    addr: ServerAddress,
    http_client: InternalHttpClient,
}

/// What a reply means to an operation that succeeds on `expected` alone.
fn settle(reply: Reply, expected: u16, lead: &str, tail: &str) -> (r: Result<(), String>)
    ensures
        crate::exchange::failure_view(r) == protocol::settle(
            expected,
            lead@,
            tail@,
            reply_view(reply),
        ),
{
    match reply {
        Err(cause) => Err(with_cause("Cannot send request to mock server: ", cause.as_str())),
        Ok((status, body)) => {
            if status != expected {
                Err(status_failure(lead, status, body.as_str(), tail))
            } else {
                Ok(())
            }
        },
    }
}

impl RemoteMockServerAdapter {
    /// An adapter for the server at `addr`.
    pub fn new(addr: ServerAddress) -> (r: Self)
        ensures
            r.spec_address() == addr@,
    {
        Self { addr, http_client: InternalHttpClient::new() }
    }

    /// The client settings that the adapter was made with.
    pub fn http_client(&self) -> (r: &InternalHttpClient)
        ensures
            r.spec_keep_alive_secs() == 86400,
    {
        proof {
            use_type_invariant(self);
        }
        &self.http_client
    }

    #[verifier::type_invariant]
    spec fn keeps_connections_for_a_day(self) -> bool {
        self.http_client.spec_keep_alive_secs() == 86400
    }

    /// Whether `mock` can be sent to another process: it cannot where it
    /// embeds matcher functions.
    pub fn validate_mock(&self, mock: &MockDefinition) -> (r: Result<(), String>)
        ensures
            match r {
                Ok(_) => !mock.embeds_matchers(),
                Err(e) => mock.embeds_matchers() && e@ == protocol::unsupported_matchers(),
            },
    {
        if mock.request.matchers.is_some() {
            return Err(
                String::from_str(
                    "Anonymous function request matchers are not supported when using a remote mock server",
                ),
            );
        }
        Ok(())
    }

    /// One step of creating `mock` on the server. A definition that embeds
    /// matcher functions is turned down at every step, so that nothing of it
    /// is ever encoded or sent. Otherwise the payload is encoded, sent by
    /// POST, and on the status 201 the body is decoded into the reference;
    /// a payload that does not encode, a failed transport, another status
    /// and a body that does not decode each end the operation with a text
    /// of their own.
    pub fn create_mock(&self, mock: &MockDefinition, progress: Progress<MockRef>) -> (next: Next<
        MockRef,
    >)
        ensures
            next@ == protocol::create_mock(self.spec_address(), *mock, progress@),
    {
        // Check if the request can be sent via HTTP
        match self.validate_mock(mock) {
            Err(message) => {
                return Next::Done(Err(message));
            },
            Ok(_) => {},
        }
        match progress {
            Progress::Start => Next::Encode,
            Progress::Encoded(Err(cause)) => Next::Done(
                Err(with_cause("cannot serialize mock object to JSON: ", cause.as_str())),
            ),
            Progress::Encoded(Ok(json)) => Next::Send(
                AdminRequest::json(Method::POST, admin_url(&self.addr, "mocks"), json),
            ),
            Progress::Replied(Err(cause)) => Next::Done(
                Err(with_cause("cannot send request to mock server: ", cause.as_str())),
            ),
            Progress::Replied(Ok((status, body))) => {
                // Evaluate the response status
                if status != 201 {
                    proof {
                        reveal_strlit("");
                        assert(""@ =~= Seq::<char>::empty());
                    }
                    Next::Done(
                        Err(
                            status_failure(
                                "Could not create mock. Mock server response: status = ",
                                status,
                                body.as_str(),
                                "",
                            ),
                        ),
                    )
                } else {
                    Next::Decode(body)
                }
            },
            Progress::Decoded(Err(cause)) => Next::Done(
                Err(with_cause("Cannot deserialize mock server response: ", cause.as_str())),
            ),
            Progress::Decoded(Ok(mock_ref)) => Next::Done(Ok(mock_ref)),
        }
    }
}

impl RemoteMockServerAdapter {
    /// One step of fetching the mock `mock_id`: a GET for it, and on the
    /// status 200 the body is decoded into the active mock.
    pub fn fetch_mock<A>(&self, mock_id: usize, progress: Progress<A>) -> (next: Next<A>)
        ensures
            next@ == protocol::fetch_mock(self.spec_address(), mock_id, progress@),
    {
        match progress {
            Progress::Replied(Err(cause)) => Next::Done(
                Err(with_cause("Cannot send request to mock server: ", cause.as_str())),
            ),
            Progress::Replied(Ok((status, body))) => {
                // Evaluate response status code
                if status != 200 {
                    proof {
                        reveal_strlit("");
                        assert(""@ =~= Seq::<char>::empty());
                    }
                    Next::Done(
                        Err(
                            status_failure(
                                "Could not create mock. Mock server response: status = ",
                                status,
                                body.as_str(),
                                "",
                            ),
                        ),
                    )
                } else {
                    Next::Decode(body)
                }
            },
            Progress::Decoded(Err(cause)) => Next::Done(
                Err(with_cause("Cannot deserialize mock server response: ", cause.as_str())),
            ),
            Progress::Decoded(Ok(active)) => Next::Done(Ok(active)),
            _ => Next::Send(AdminRequest::bare(Method::GET, mock_url(&self.addr, mock_id))),
        }
    }

    /// One step of deleting the mock `mock_id`: a DELETE for it, which
    /// succeeds on the status 202 and on no other.
    pub fn delete_mock(&self, mock_id: usize, progress: Progress<()>) -> (next: Next<()>)
        ensures
            next@ == protocol::delete_mock(self.spec_address(), mock_id, progress@),
    {
        match progress {
            Progress::Replied(reply) => Next::Done(
                settle(reply, 202, "Could not delete mocks from server (status = ", ")"),
            ),
            _ => Next::Send(AdminRequest::bare(Method::DELETE, mock_url(&self.addr, mock_id))),
        }
    }

    /// One step of deleting all mocks: a DELETE on the collection, which
    /// succeeds on the status 202 and on no other.
    pub fn delete_all_mocks(&self, progress: Progress<()>) -> (next: Next<()>)
        ensures
            next@ == protocol::delete_all_mocks(self.spec_address(), progress@),
    {
        match progress {
            Progress::Replied(reply) => Next::Done(
                settle(reply, 202, "Could not delete mocks from server (status = ", ")"),
            ),
            _ => Next::Send(AdminRequest::bare(Method::DELETE, admin_url(&self.addr, "mocks"))),
        }
    }

    /// One step of verifying: the criteria are encoded and sent by POST. The
    /// status 404 means that nothing matched, which is a result and no
    /// failure; on 200 the body is decoded into the closest match; every
    /// other status is a failure.
    pub fn verify<C>(&self, progress: Progress<C>) -> (next: Next<Option<C>>)
        ensures
            next@ == protocol::verify(self.spec_address(), progress@),
    {
        match progress {
            Progress::Start => Next::Encode,
            Progress::Encoded(Err(cause)) => Next::Done(
                Err(with_cause("Cannot serialize mock object to JSON: ", cause.as_str())),
            ),
            Progress::Encoded(Ok(json)) => Next::Send(
                AdminRequest::json(Method::POST, admin_url(&self.addr, "verify"), json),
            ),
            Progress::Replied(Err(cause)) => Next::Done(
                Err(with_cause("Cannot send request to mock server: ", cause.as_str())),
            ),
            Progress::Replied(Ok((status, body))) => {
                // Evaluate the response status
                if status == 404 {
                    return Next::Done(Ok(None));
                }
                if status != 200 {
                    return Next::Done(
                        Err(
                            status_failure(
                                "Could not execute verification (status = ",
                                status,
                                body.as_str(),
                                ")",
                            ),
                        ),
                    );
                }
                Next::Decode(body)
            },
            Progress::Decoded(Err(cause)) => Next::Done(
                Err(with_cause("cannot deserialize mock server response: ", cause.as_str())),
            ),
            Progress::Decoded(Ok(closest)) => Next::Done(Ok(Some(closest))),
        }
    }

    /// One step of deleting the request history: a DELETE, which succeeds
    /// on the status 202 and on no other.
    pub fn delete_history(&self, progress: Progress<()>) -> (next: Next<()>)
        ensures
            next@ == protocol::delete_history(self.spec_address(), progress@),
    {
        match progress {
            Progress::Replied(reply) => Next::Done(
                settle(reply, 202, "Could not delete history from server (status = ", ")"),
            ),
            _ => Next::Send(AdminRequest::bare(Method::DELETE, admin_url(&self.addr, "history"))),
        }
    }
}

impl MockServerAdapter for RemoteMockServerAdapter {
    closed spec fn spec_address(&self) -> ServerAddressView {
        self.addr@
    }

    fn host(&self) -> (r: String) {
        self.addr.host()
    }

    fn port(&self) -> (r: u16) {
        self.addr.port()
    }

    fn address(&self) -> (r: &ServerAddress) {
        &self.addr
    }

    fn ping(&self, progress: Progress<()>) -> (next: Next<()>) {
        self.http_client.http_ping(&self.addr, progress)
    }
}

} // verus!
