use httpmock::adapter::local::{CreationOrigin, LocalMockServerAdapter};
use httpmock::adapter::MockServerAdapter;
use httpmock::address::{IpFamily, ServerAddress};
use httpmock::data::MockRef;
use httpmock::exchange::{Next, Progress};
use httpmock::method::Method;

fn local() -> LocalMockServerAdapter {
    LocalMockServerAdapter::new(ServerAddress::new(String::from("127.0.0.1"), 4000, IpFamily::V4))
}

#[test]
fn local_adapter_knows_where_the_server_is() {
    let adapter = local();
    assert_eq!(adapter.host(), "127.0.0.1");
    assert_eq!(adapter.port(), 4000);
    assert_eq!(*adapter.address(), adapter.addr);
    assert_eq!(adapter.addr.to_string(), "127.0.0.1:4000");
}

#[test]
fn local_create_tells_the_handler_that_the_mock_comes_through_an_adapter() {
    let adapter = local();
    assert_eq!(adapter.creation_origin(), CreationOrigin::Adapter);
    assert!(!adapter.creation_origin().as_flag());
    assert!(CreationOrigin::Other.as_flag());
}

#[test]
fn local_create_wraps_the_id_into_a_reference() {
    let adapter = local();
    assert_eq!(adapter.create_mock(Ok(7)), Ok(MockRef { mock_id: 7 }));
    assert_eq!(adapter.create_mock(Ok(0)), Ok(MockRef { mock_id: 0 }));
    assert_eq!(
        adapter.create_mock(Err(String::from("invalid definition"))),
        Err(String::from("invalid definition"))
    );
}

#[test]
fn local_fetch_of_a_mock_that_was_never_created_fails() {
    let adapter = local();
    assert_eq!(
        adapter.fetch_mock::<u32>(Ok(None)),
        Err(String::from("Cannot find mock"))
    );
}

#[test]
fn local_fetch_hands_the_mock_on() {
    let adapter = local();
    assert_eq!(adapter.fetch_mock(Ok(Some("active"))), Ok("active"));
    assert_eq!(
        adapter.fetch_mock::<u32>(Err(String::from("poisoned"))),
        Err(String::from("poisoned"))
    );
}

#[test]
fn local_delete_of_an_existing_mock_succeeds() {
    assert_eq!(local().delete_mock(Ok(true)), Ok(()));
}

#[test]
fn local_delete_of_a_mock_that_is_not_there_fails() {
    let adapter = local();
    assert_eq!(
        adapter.delete_mock(Ok(false)),
        Err(String::from("Mock could not deleted"))
    );
    assert_eq!(
        adapter.delete_mock(Err(String::from("poisoned"))),
        Err(String::from("poisoned"))
    );
}

#[test]
fn local_delete_all_and_delete_history_cannot_fail() {
    let adapter = local();
    assert_eq!(adapter.delete_all_mocks(), Ok(()));
    assert_eq!(adapter.delete_history(), Ok(()));
}

#[test]
fn local_verify_passes_the_answer_through() {
    let adapter = local();
    assert_eq!(adapter.verify::<u8>(Ok(None)), Ok(None));
    assert_eq!(adapter.verify(Ok(Some(5u8))), Ok(Some(5u8)));
    assert_eq!(
        adapter.verify::<u8>(Err(String::from("bad criteria"))),
        Err(String::from("bad criteria"))
    );
}

#[test]
fn local_ping_goes_over_http() {
    let adapter = local();
    match adapter.ping(Progress::Start) {
        Next::Send(request) => {
            assert_eq!(request.method, Method::GET);
            assert_eq!(request.url, "http://127.0.0.1:4000/__httpmock__/ping");
        }
        other => panic!("no request was asked for: {:?}", other),
    }
    assert_eq!(
        adapter.ping(Progress::Replied(Ok((200, String::new())))),
        Next::Done(Ok(()))
    );
    assert_eq!(
        adapter.ping(Progress::Replied(Ok((503, String::from("busy"))))),
        Next::Done(Err(String::from(
            "Could not create mock. Mock server response: status = 503, message = busy"
        )))
    );
    assert_eq!(
        adapter.ping(Progress::Replied(Err(String::from("refused")))),
        Next::Done(Err(String::from("cannot send request to mock server: refused")))
    );
}
