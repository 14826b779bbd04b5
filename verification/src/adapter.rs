use crate::address::{ServerAddress, ServerAddressView};
use crate::exchange::{
    admin_url, reply_view, status_failure, with_cause, AdminRequest, Next, Progress, Reply,
};
use crate::method::Method;
use crate::protocol;
use vstd::prelude::*;
use vstd::string::StringExecFns;
use vstd::utf8::{encode_utf8, encode_utf8_decode_utf8, valid_utf8};

pub mod local;
pub mod standalone;

verus! {

/// The part of the adapter contract that is the same for every binding: where
/// the server is, and the health probe, which goes over HTTP even where the
/// server lives in this process. The other operations are methods of each
/// adapter, since what stands around them differs: an exchange over HTTP for
/// a remote server, a call into the server state for one in this process.
pub trait MockServerAdapter {
    /// The address of the server that the adapter speaks to.
    spec fn spec_address(&self) -> ServerAddressView;

    fn host(&self) -> (r: String)
        ensures
            r@ == self.spec_address().ip,
    ;

    fn port(&self) -> (r: u16)
        ensures
            r == self.spec_address().port,
    ;

    fn address(&self) -> (r: &ServerAddress)
        ensures
            r@ == self.spec_address(),
    ;

    fn ping(&self, progress: Progress<()>) -> (next: Next<()>)
        ensures
            next@ == protocol::ping(self.spec_address(), progress@),
    ;
}

/// The model of what a transfer brought: the status and the bytes of the
/// body, or the cause of the failure.
pub open spec fn transfer_view(transfer: Result<(u16, Vec<u8>), String>) -> Result<
    (u16, Seq<u8>),
    Seq<char>,
> {
    match transfer {
        Ok((status, bytes)) => Ok((status, bytes@)),
        Err(cause) => Err(cause@),
    }
}

/// std's `String::from_utf8`, with the error as the text that its `Display`
/// gives. Trusted: the bytes become a string exactly when they are valid
/// UTF-8, and the string then has those bytes; otherwise the error text is
/// the one that std has for these bytes.
#[verifier::external_body]
fn text_from_utf8(bytes: Vec<u8>) -> (r: Result<String, String>)
    ensures
        match r {
            Ok(text) => valid_utf8(bytes@) && encode_utf8(text@) == bytes@,
            Err(cause) => !valid_utf8(bytes@) && cause@ == protocol::utf8_failure(bytes@),
        },
{
    match String::from_utf8(bytes) {
        Ok(text) => Ok(text),
        Err(err) => Err(err.to_string()),
    }
}

/// The settings of the HTTP client that an adapter talks through, and what
/// the client makes of a finished transfer.
#[derive(Debug)]
pub struct InternalHttpClient {
    keep_alive_secs: u64,
}

impl InternalHttpClient {
    /// For how long an idle connection is kept, in seconds.
    pub closed spec fn spec_keep_alive_secs(self) -> u64 {
        self.keep_alive_secs
    }

    /// A client that keeps idle connections for a day.
    pub fn new() -> (r: Self)
        ensures
            r.spec_keep_alive_secs() == 86400,
    {
        InternalHttpClient { keep_alive_secs: 60 * 60 * 24 }
    }

    /// For how long an idle connection is kept, in seconds.
    pub fn keep_alive_secs(&self) -> (r: u64)
        ensures
            r == self.spec_keep_alive_secs(),
    {
        self.keep_alive_secs
    }

    /// What a finished transfer amounts to. A transfer that failed, at
    /// whatever point, and a body that is not UTF-8 all become the same kind
    /// of failure, each with its cause.
    pub fn execute_request(&self, transfer: Result<(u16, Vec<u8>), String>) -> (r: Reply)
        ensures
            reply_view(r) == protocol::read_transfer(transfer_view(transfer)),
    {
        match transfer {
            Err(cause) => Err(
                with_cause("cannot send request to mock server: ", cause.as_str()),
            ),
            Ok((status, bytes)) => {
                match text_from_utf8(bytes) {
                    Err(cause) => Err(
                        with_cause("cannot send request to mock server: ", cause.as_str()),
                    ),
                    Ok(body) => {
                        proof {
                            encode_utf8_decode_utf8(body@);
                        }
                        Ok((status, body))
                    },
                }
            },
        }
    }

    /// One step of the health probe of the server at `server_addr`: a GET on
    /// the health path, which succeeds on the status 200 and on no other.
    /// Another status is reported with the status and the body.
    pub fn http_ping(&self, server_addr: &ServerAddress, progress: Progress<()>) -> (next: Next<()>)
        ensures
            next@ == protocol::ping(server_addr@, progress@),
    {
        match progress {
            Progress::Replied(Err(cause)) => Next::Done(
                Err(with_cause("cannot send request to mock server: ", cause.as_str())),
            ),
            Progress::Replied(Ok((status, body))) => {
                if status != 200 {
                    proof {
                        reveal_strlit("");
                        assert(""@ =~= Seq::<char>::empty());
                    }
                    Next::Done(
                        Err(
                            status_failure(
                                "Could not create mock. Mock server response: status = ",
                                status,
                                body.as_str(),
                                "",
                            ),
                        ),
                    )
                } else {
                    Next::Done(Ok(()))
                }
            },
            _ => Next::Send(AdminRequest::bare(Method::GET, admin_url(server_addr, "ping"))),
        }
    }
}

} // verus!
