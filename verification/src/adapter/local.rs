use crate::adapter::{InternalHttpClient, MockServerAdapter};
use crate::address::{ServerAddress, ServerAddressView};
use crate::data::MockRef;
use crate::exchange::{failure_view, Next, Progress};
use vstd::prelude::*;
use vstd::string::StringExecFns;

verus! {

/// Which path a mock definition reached the server state by. The state is
/// told with every mock that it is asked to add.
#[derive(Clone, Copy, Debug, PartialEq, Eq, Structural)]
pub enum CreationOrigin {
    /// Through an adapter.
    Adapter,
    /// By any other path.
    Other,
}

impl CreationOrigin {
    /// The origin as the flag that the add-mock handler takes: unset for a
    /// mock that comes through an adapter.
    pub fn as_flag(&self) -> (r: bool)
        ensures
            r == (*self == CreationOrigin::Other),
    {
        match self {
            CreationOrigin::Adapter => false,
            CreationOrigin::Other => true,
        }
    }
}

/// What creating a mock yields, given what the add-mock handler answered.
pub open spec fn created(added: Result<usize, Seq<char>>) -> Result<MockRef, Seq<char>> {
    match added {
        Ok(mock_id) => Ok(MockRef { mock_id }),
        Err(cause) => Err(cause),
    }
}

/// What fetching a mock yields, given what the read handler answered: a mock
/// that is not there is a failure.
pub open spec fn fetched<A>(found: Result<Option<A>, Seq<char>>) -> Result<A, Seq<char>> {
    match found {
        Ok(Some(active)) => Ok(active),
        Ok(None) => Err("Cannot find mock"@),
        Err(cause) => Err(cause),
    }
}

/// What deleting a mock yields, given what the delete handler answered: a
/// mock that was not deleted is a failure.
pub open spec fn deleted(removed: Result<bool, Seq<char>>) -> Result<(), Seq<char>> {
    match removed {
        Ok(true) => Ok(()),
        Ok(false) => Err("Mock could not deleted"@),
        Err(cause) => Err(cause),
    }
}

/// The adapter for a mock server that lives in this process. Its operations
/// are calls into the handlers of the server state; each function here says
/// what the handler's answer amounts to. Only the health probe goes over
/// HTTP.
#[derive(Debug)]
pub struct LocalMockServerAdapter {
    pub addr: ServerAddress,
    client: InternalHttpClient,
}

impl LocalMockServerAdapter {
    /// An adapter for the server of this process that listens at `addr`.
    pub fn new(addr: ServerAddress) -> (r: Self)
        ensures
            r.spec_address() == addr@,
    {
        let client = InternalHttpClient::new();
        LocalMockServerAdapter { addr, client }
    }

    /// The origin that the add-mock handler is to be told.
    pub fn creation_origin(&self) -> (r: CreationOrigin)
        ensures
            r == CreationOrigin::Adapter,
    {
        CreationOrigin::Adapter
    }

    /// The reference to the mock that the add-mock handler stored under
    /// the id it answered with; the handler's failure, where it failed.
    pub fn create_mock(&self, added: Result<usize, String>) -> (r: Result<MockRef, String>)
        ensures
            failure_view(r) == created(failure_view(added)),
    {
        match added {
            Ok(id) => Ok(MockRef::new(id)),
            Err(cause) => Err(cause),
        }
    }

    /// The mock that the read handler found; a failure where it found none.
    pub fn fetch_mock<A>(&self, found: Result<Option<A>, String>) -> (r: Result<A, String>)
        ensures
            failure_view(r) == fetched(failure_view(found)),
    {
        match found {
            Ok(Some(mock)) => Ok(mock),
            Ok(None) => Err(String::from_str("Cannot find mock")),
            Err(cause) => Err(cause),
        }
    }

    /// Success where the delete handler deleted the mock; a failure where
    /// it did not.
    pub fn delete_mock(&self, removed: Result<bool, String>) -> (r: Result<(), String>)
        ensures
            failure_view(r) == deleted(failure_view(removed)),
    {
        match removed {
            Ok(true) => Ok(()),
            Ok(false) => Err(String::from_str("Mock could not deleted")),
            Err(cause) => Err(cause),
        }
    }

    /// Deleting all mocks cannot fail.
    pub fn delete_all_mocks(&self) -> (r: Result<(), String>)
        ensures
            r == Ok::<(), String>(()),
    {
        Ok(())
    }

    /// The answer of the verify handler is the result, unchanged.
    pub fn verify<C>(&self, found: Result<Option<C>, String>) -> (r: Result<Option<C>, String>)
        ensures
            r == found,
    {
        found
    }

    /// Deleting the history cannot fail.
    pub fn delete_history(&self) -> (r: Result<(), String>)
        ensures
            r == Ok::<(), String>(()),
    {
        Ok(())
    }
}

impl MockServerAdapter for LocalMockServerAdapter {
    closed spec fn spec_address(&self) -> ServerAddressView {
        self.addr@
    }

    fn host(&self) -> (r: String) {
        self.addr.host()
    }

    fn port(&self) -> (r: u16) {
        self.addr.port()
    }

    fn address(&self) -> (r: &ServerAddress) {
        &self.addr
    }

    fn ping(&self, progress: Progress<()>) -> (next: Next<()>) {
        self.client.http_ping(&self.addr, progress)
    }
}

} // verus!
