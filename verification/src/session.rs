use crate::address::ServerAddressView;
use crate::data::{MockDefinition, MockRef};
use crate::exchange::{AdminRequestView, NextView, ProgressView, ReplyView};
use crate::method::Method;
use crate::protocol;
use vstd::prelude::*;

verus! {

/// What stands around an adapter during one exchange: what encoding the
/// payload gives, what the transport answers to a request, and what decoding
/// makes of a response body.
pub struct Surroundings<D> {
    pub encoded: Result<Seq<char>, Seq<char>>,
    pub transport: spec_fn(AdminRequestView) -> ReplyView,
    pub decode: spec_fn(Seq<char>) -> Result<D, Seq<char>>,
}

/// What an exchange came to: the requests that went out, in order, and the
/// result, if the exchange got that far.
pub struct Trace<T> {
    pub sent: Seq<AdminRequestView>,
    pub result: Option<Result<T, Seq<char>>>,
}

/// The event with which the surroundings answer an action.
pub open spec fn answer<D, T>(around: Surroundings<D>, action: NextView<T>) -> ProgressView<D> {
    match action {
        NextView::Encode => ProgressView::Encoded(around.encoded),
        NextView::Send(request) => ProgressView::Replied((around.transport)(request)),
        NextView::Decode(body) => ProgressView::Decoded((around.decode)(body)),
        NextView::Done(_) => ProgressView::Start,
    }
}

/// The requests that an action sends: the request itself for `Send`, none
/// otherwise.
pub open spec fn sends<T>(action: NextView<T>) -> Seq<AdminRequestView> {
    match action {
        NextView::Send(request) => seq![request],
        _ => Seq::empty(),
    }
}

/// Runs an operation from `progress` on: every action is answered by the
/// surroundings and the answer handed back, until the operation is over or
/// `actions` of them have been carried out.
pub open spec fn drive<D, T>(
    step: spec_fn(ProgressView<D>) -> NextView<T>,
    around: Surroundings<D>,
    progress: ProgressView<D>,
    actions: nat,
) -> Trace<T>
    decreases actions,
{
    match step(progress) {
        NextView::Done(result) => Trace { sent: Seq::empty(), result: Some(result) },
        action => if actions == 0 {
            Trace { sent: Seq::empty(), result: None }
        } else {
            let rest = drive(step, around, answer(around, action), (actions - 1) as nat);
            Trace { sent: sends(action) + rest.sent, result: rest.result }
        },
    }
}

/// A whole exchange: the operation run from the start, with room for the
/// three actions that an operation can ask for.
pub open spec fn exchange<D, T>(
    step: spec_fn(ProgressView<D>) -> NextView<T>,
    around: Surroundings<D>,
) -> Trace<T> {
    drive(step, around, ProgressView::Start, 3)
}

/// Creating `mock` on the server at `addr`, as an operation.
pub open spec fn creating(addr: ServerAddressView, mock: MockDefinition) -> spec_fn(
    ProgressView<MockRef>,
) -> NextView<MockRef> {
    |progress: ProgressView<MockRef>| protocol::create_mock(addr, mock, progress)
}

/// Fetching the mock `mock_id`, as an operation.
pub open spec fn fetching<A>(addr: ServerAddressView, mock_id: usize) -> spec_fn(
    ProgressView<A>,
) -> NextView<A> {
    |progress: ProgressView<A>| protocol::fetch_mock(addr, mock_id, progress)
}

/// Deleting the mock `mock_id`, as an operation.
pub open spec fn deleting(addr: ServerAddressView, mock_id: usize) -> spec_fn(
    ProgressView<()>,
) -> NextView<()> {
    |progress: ProgressView<()>| protocol::delete_mock(addr, mock_id, progress)
}

/// Deleting all mocks, as an operation.
pub open spec fn deleting_all(addr: ServerAddressView) -> spec_fn(ProgressView<()>) -> NextView<
    (),
> {
    |progress: ProgressView<()>| protocol::delete_all_mocks(addr, progress)
}

/// Deleting the history, as an operation.
pub open spec fn deleting_history(addr: ServerAddressView) -> spec_fn(
    ProgressView<()>,
) -> NextView<()> {
    |progress: ProgressView<()>| protocol::delete_history(addr, progress)
}

/// Verifying, as an operation.
pub open spec fn verifying<C>(addr: ServerAddressView) -> spec_fn(ProgressView<C>) -> NextView<
    Option<C>,
> {
    |progress: ProgressView<C>| protocol::verify(addr, progress)
}

/// The health probe, as an operation.
pub open spec fn pinging(addr: ServerAddressView) -> spec_fn(ProgressView<()>) -> NextView<()> {
    |progress: ProgressView<()>| protocol::ping(addr, progress)
}

/// A definition that embeds matcher functions is turned down whatever the
/// exchange has brought: no request is ever asked for.
pub proof fn lemma_create_with_matchers_never_sends(
    addr: ServerAddressView,
    mock: MockDefinition,
    progress: ProgressView<MockRef>,
)
    requires
        mock.embeds_matchers(),
    ensures
        protocol::create_mock(addr, mock, progress) == NextView::<MockRef>::Done(
            Err(protocol::unsupported_matchers()),
        ),
        !(protocol::create_mock(addr, mock, progress) is Send),
{
}

/// Creating a definition that embeds matcher functions fails with the text
/// for it, and nothing is sent, whatever stands around the adapter.
pub proof fn lemma_create_with_matchers_fails_unsent(
    addr: ServerAddressView,
    mock: MockDefinition,
    around: Surroundings<MockRef>,
)
    requires
        mock.embeds_matchers(),
    ensures
        exchange(creating(addr, mock), around).sent == Seq::<AdminRequestView>::empty(),
        exchange(creating(addr, mock), around).result == Some(
            Err::<MockRef, Seq<char>>(protocol::unsupported_matchers()),
        ),
{
    reveal_with_fuel(drive, 4);
}

/// An exchange in which nothing was sent.
pub open spec fn unsent<T>(result: Result<T, Seq<char>>) -> Trace<T> {
    Trace { sent: Seq::empty(), result: Some(result) }
}

/// An exchange in which `request` was sent, and nothing else.
pub open spec fn sent_once<T>(request: AdminRequestView, result: Result<T, Seq<char>>) -> Trace<
    T,
> {
    Trace { sent: seq![request], result: Some(result) }
}

/// The request that creates a mock from `json`.
pub open spec fn create_request(addr: ServerAddressView, json: Seq<char>) -> AdminRequestView {
    protocol::json_request(Method::POST, protocol::admin_url(addr, "mocks"@), json)
}

/// The request that fetches the mock `mock_id`.
pub open spec fn fetch_request(addr: ServerAddressView, mock_id: usize) -> AdminRequestView {
    protocol::bare_request(
        Method::GET,
        protocol::admin_url(addr, protocol::mock_resource(mock_id)),
    )
}

/// The request that deletes the mock `mock_id`.
pub open spec fn delete_request(addr: ServerAddressView, mock_id: usize) -> AdminRequestView {
    protocol::bare_request(
        Method::DELETE,
        protocol::admin_url(addr, protocol::mock_resource(mock_id)),
    )
}

/// The request that verifies the criteria in `json`.
pub open spec fn verify_request(addr: ServerAddressView, json: Seq<char>) -> AdminRequestView {
    protocol::json_request(Method::POST, protocol::admin_url(addr, "verify"@), json)
}

/// The request of the health probe.
pub open spec fn ping_request(addr: ServerAddressView) -> AdminRequestView {
    protocol::bare_request(Method::GET, protocol::admin_url(addr, "ping"@))
}

/// What creating a mock comes to, from validation to the decoded reference.
pub open spec fn create_outcome(
    addr: ServerAddressView,
    mock: MockDefinition,
    around: Surroundings<MockRef>,
) -> Trace<MockRef> {
    if mock.embeds_matchers() {
        unsent(Err(protocol::unsupported_matchers()))
    } else {
        match around.encoded {
            Err(cause) => unsent(Err("cannot serialize mock object to JSON: "@ + cause)),
            Ok(json) => {
                let request = create_request(addr, json);
                match (around.transport)(request) {
                    Err(cause) => sent_once(
                        request,
                        Err("cannot send request to mock server: "@ + cause),
                    ),
                    Ok((status, body)) => if status != 201 {
                        sent_once(
                            request,
                            Err(
                                protocol::status_failure(
                                    "Could not create mock. Mock server response: status = "@,
                                    status,
                                    body,
                                    Seq::empty(),
                                ),
                            ),
                        )
                    } else {
                        match (around.decode)(body) {
                            Ok(mock_ref) => sent_once(request, Ok(mock_ref)),
                            Err(cause) => sent_once(
                                request,
                                Err("Cannot deserialize mock server response: "@ + cause),
                            ),
                        }
                    },
                }
            },
        }
    }
}

/// What fetching a mock comes to.
pub open spec fn fetch_outcome<A>(
    addr: ServerAddressView,
    mock_id: usize,
    around: Surroundings<A>,
) -> Trace<A> {
    let request = fetch_request(addr, mock_id);
    match (around.transport)(request) {
        Err(cause) => sent_once(request, Err("Cannot send request to mock server: "@ + cause)),
        Ok((status, body)) => if status != 200 {
            sent_once(
                request,
                Err(
                    protocol::status_failure(
                        "Could not create mock. Mock server response: status = "@,
                        status,
                        body,
                        Seq::empty(),
                    ),
                ),
            )
        } else {
            match (around.decode)(body) {
                Ok(active) => sent_once(request, Ok(active)),
                Err(cause) => sent_once(
                    request,
                    Err("Cannot deserialize mock server response: "@ + cause),
                ),
            }
        },
    }
}

/// What verifying comes to.
pub open spec fn verify_outcome<C>(addr: ServerAddressView, around: Surroundings<C>) -> Trace<
    Option<C>,
> {
    match around.encoded {
        Err(cause) => unsent(Err("Cannot serialize mock object to JSON: "@ + cause)),
        Ok(json) => {
            let request = verify_request(addr, json);
            match (around.transport)(request) {
                Err(cause) => sent_once(
                    request,
                    Err("Cannot send request to mock server: "@ + cause),
                ),
                Ok((status, body)) => if status == 404 {
                    sent_once(request, Ok(None))
                } else if status != 200 {
                    sent_once(
                        request,
                        Err(
                            protocol::status_failure(
                                "Could not execute verification (status = "@,
                                status,
                                body,
                                ")"@,
                            ),
                        ),
                    )
                } else {
                    match (around.decode)(body) {
                        Ok(closest) => sent_once(request, Ok(Some(closest))),
                        Err(cause) => sent_once(
                            request,
                            Err("cannot deserialize mock server response: "@ + cause),
                        ),
                    }
                },
            }
        },
    }
}

/// What an operation comes to that sends `request` and succeeds on the
/// status `expected` alone.
pub open spec fn status_outcome(
    request: AdminRequestView,
    expected: u16,
    lead: Seq<char>,
    tail: Seq<char>,
    around: Surroundings<()>,
) -> Trace<()> {
    sent_once(request, protocol::settle(expected, lead, tail, (around.transport)(request)))
}

/// What the health probe comes to.
pub open spec fn ping_outcome(addr: ServerAddressView, around: Surroundings<()>) -> Trace<()> {
    let request = ping_request(addr);
    match (around.transport)(request) {
        Err(cause) => sent_once(request, Err("cannot send request to mock server: "@ + cause)),
        Ok((status, body)) => if status != 200 {
            sent_once(
                request,
                Err(
                    protocol::status_failure(
                        "Could not create mock. Mock server response: status = "@,
                        status,
                        body,
                        Seq::empty(),
                    ),
                ),
            )
        } else {
            sent_once(request, Ok(()))
        },
    }
}

/// Creating a mock, driven step by step, comes to what `create_outcome`
/// says: in particular the exchange ends, and at most one request goes out.
pub proof fn lemma_create_exchange(
    addr: ServerAddressView,
    mock: MockDefinition,
    around: Surroundings<MockRef>,
)
    ensures
        exchange(creating(addr, mock), around) == create_outcome(addr, mock, around),
{
    reveal_with_fuel(drive, 4);
    let trace = exchange(creating(addr, mock), around);
    let outcome = create_outcome(addr, mock, around);
    assert(trace.sent =~= outcome.sent);
    assert(trace.result == outcome.result);
}

/// Fetching a mock, driven step by step, comes to what `fetch_outcome` says.
pub proof fn lemma_fetch_exchange<A>(
    addr: ServerAddressView,
    mock_id: usize,
    around: Surroundings<A>,
)
    ensures
        exchange(fetching(addr, mock_id), around) == fetch_outcome(addr, mock_id, around),
{
    reveal_with_fuel(drive, 4);
    let trace = exchange(fetching::<A>(addr, mock_id), around);
    let outcome = fetch_outcome(addr, mock_id, around);
    assert(trace.sent =~= outcome.sent);
    assert(trace.result == outcome.result);
}

/// Verifying, driven step by step, comes to what `verify_outcome` says.
pub proof fn lemma_verify_exchange<C>(addr: ServerAddressView, around: Surroundings<C>)
    ensures
        exchange(verifying(addr), around) == verify_outcome(addr, around),
{
    reveal_with_fuel(drive, 4);
    let trace = exchange(verifying::<C>(addr), around);
    let outcome = verify_outcome(addr, around);
    assert(trace.sent =~= outcome.sent);
    assert(trace.result == outcome.result);
}

/// The three deletions, driven step by step: each sends its one request and
/// succeeds exactly on the status 202.
pub proof fn lemma_delete_exchanges(
    addr: ServerAddressView,
    mock_id: usize,
    around: Surroundings<()>,
)
    ensures
        exchange(deleting(addr, mock_id), around) == status_outcome(
            delete_request(addr, mock_id),
            202,
            "Could not delete mocks from server (status = "@,
            ")"@,
            around,
        ),
        exchange(deleting_all(addr), around) == status_outcome(
            protocol::bare_request(Method::DELETE, protocol::admin_url(addr, "mocks"@)),
            202,
            "Could not delete mocks from server (status = "@,
            ")"@,
            around,
        ),
        exchange(deleting_history(addr), around) == status_outcome(
            protocol::bare_request(Method::DELETE, protocol::admin_url(addr, "history"@)),
            202,
            "Could not delete history from server (status = "@,
            ")"@,
            around,
        ),
{
    reveal_with_fuel(drive, 4);
    let one = exchange(deleting(addr, mock_id), around);
    assert(one.sent =~= seq![delete_request(addr, mock_id)]);
    let all = exchange(deleting_all(addr), around);
    assert(all.sent =~= seq![
        protocol::bare_request(Method::DELETE, protocol::admin_url(addr, "mocks"@)),
    ]);
    let history = exchange(deleting_history(addr), around);
    assert(history.sent =~= seq![
        protocol::bare_request(Method::DELETE, protocol::admin_url(addr, "history"@)),
    ]);
}

/// The health probe, driven step by step, comes to what `ping_outcome` says.
pub proof fn lemma_ping_exchange(addr: ServerAddressView, around: Surroundings<()>)
    ensures
        exchange(pinging(addr), around) == ping_outcome(addr, around),
{
    reveal_with_fuel(drive, 4);
    let trace = exchange(pinging(addr), around);
    let outcome = ping_outcome(addr, around);
    assert(trace.sent =~= outcome.sent);
    assert(trace.result == outcome.result);
}

/// Where the definition embeds no matcher function, the payload encodes, the
/// server answers 201 and the body decodes to a reference, creating yields
/// that reference, after the one request that carries the payload.
pub proof fn lemma_create_yields_decoded_reference(
    addr: ServerAddressView,
    mock: MockDefinition,
    around: Surroundings<MockRef>,
    json: Seq<char>,
    body: Seq<char>,
    mock_ref: MockRef,
)
    requires
        !mock.embeds_matchers(),
        around.encoded == Ok::<Seq<char>, Seq<char>>(json),
        (around.transport)(create_request(addr, json)) == Ok::<(u16, Seq<char>), Seq<char>>(
            (201, body),
        ),
        (around.decode)(body) == Ok::<MockRef, Seq<char>>(mock_ref),
    ensures
        exchange(creating(addr, mock), around) == sent_once(
            create_request(addr, json),
            Ok(mock_ref),
        ),
{
    lemma_create_exchange(addr, mock, around);
}

/// Fetching fails on every status but 200, with a text made of the status
/// and the body.
pub proof fn lemma_fetch_fails_on_other_status<A>(
    addr: ServerAddressView,
    mock_id: usize,
    around: Surroundings<A>,
    status: u16,
    body: Seq<char>,
)
    requires
        (around.transport)(fetch_request(addr, mock_id)) == Ok::<(u16, Seq<char>), Seq<char>>(
            (status, body),
        ),
        status != 200,
    ensures
        exchange(fetching(addr, mock_id), around).result == Some(
            Err::<A, Seq<char>>(
                protocol::status_failure(
                    "Could not create mock. Mock server response: status = "@,
                    status,
                    body,
                    Seq::empty(),
                ),
            ),
        ),
{
    lemma_fetch_exchange(addr, mock_id, around);
}

/// Verifying against the status 404 yields "no match", which is no failure;
/// against 200 it yields what the body decodes to; against any other status
/// it fails.
pub proof fn lemma_verify_by_status<C>(
    addr: ServerAddressView,
    around: Surroundings<C>,
    json: Seq<char>,
    status: u16,
    body: Seq<char>,
)
    requires
        around.encoded == Ok::<Seq<char>, Seq<char>>(json),
        (around.transport)(verify_request(addr, json)) == Ok::<(u16, Seq<char>), Seq<char>>(
            (status, body),
        ),
    ensures
        status == 404 ==> exchange(verifying(addr), around).result == Some(
            Ok::<Option<C>, Seq<char>>(None),
        ),
        status == 200 ==> match (around.decode)(body) {
            Ok(closest) => exchange(verifying(addr), around).result == Some(
                Ok::<Option<C>, Seq<char>>(Some(closest)),
            ),
            Err(_) => failed(exchange(verifying(addr), around)),
        },
        status != 404 && status != 200 ==> failed(exchange(verifying(addr), around)),
{
    lemma_verify_exchange(addr, around);
}

/// Whether a reply is a response with the status `status`.
pub open spec fn has_status(reply: ReplyView, status: u16) -> bool {
    match reply {
        Ok((got, _)) => got == status,
        Err(_) => false,
    }
}

/// Whether an exchange ended in success.
pub open spec fn succeeded<T>(trace: Trace<T>) -> bool {
    trace.result matches Some(Ok(_))
}

/// Whether an exchange ended in failure.
pub open spec fn failed<T>(trace: Trace<T>) -> bool {
    trace.result matches Some(Err(_))
}

/// Deleting a mock succeeds exactly where the server answers 202.
pub proof fn lemma_delete_succeeds_iff_202(
    addr: ServerAddressView,
    mock_id: usize,
    around: Surroundings<()>,
)
    ensures
        succeeded(exchange(deleting(addr, mock_id), around)) <==> has_status(
            (around.transport)(delete_request(addr, mock_id)),
            202,
        ),
        !succeeded(exchange(deleting(addr, mock_id), around)) ==> failed(
            exchange(deleting(addr, mock_id), around),
        ),
{
    lemma_delete_exchanges(addr, mock_id, around);
}

/// The health probe succeeds exactly where the server answers 200: any other
/// status is a failure, and so is a failure of the transport.
pub proof fn lemma_ping_succeeds_iff_200(addr: ServerAddressView, around: Surroundings<()>)
    ensures
        succeeded(exchange(pinging(addr), around)) <==> has_status(
            (around.transport)(ping_request(addr)),
            200,
        ),
        !succeeded(exchange(pinging(addr), around)) ==> failed(exchange(pinging(addr), around)),
{
    lemma_ping_exchange(addr, around);
}

} // verus!
