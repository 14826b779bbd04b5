use httpmock::method::Method;

#[test]
fn every_method_name_is_read() {
    assert_eq!(Method::from_str("GET"), Ok(Method::GET));
    assert_eq!(Method::from_str("HEAD"), Ok(Method::HEAD));
    assert_eq!(Method::from_str("POST"), Ok(Method::POST));
    assert_eq!(Method::from_str("PUT"), Ok(Method::PUT));
    assert_eq!(Method::from_str("DELETE"), Ok(Method::DELETE));
    assert_eq!(Method::from_str("CONNECT"), Ok(Method::CONNECT));
    assert_eq!(Method::from_str("OPTIONS"), Ok(Method::OPTIONS));
    assert_eq!(Method::from_str("TRACE"), Ok(Method::TRACE));
    assert_eq!(Method::from_str("PATCH"), Ok(Method::PATCH));
}

#[test]
fn unknown_method_name_is_turned_down_with_its_text() {
    assert_eq!(
        Method::from_str("FETCH"),
        Err(String::from("Invalid HTTP method FETCH"))
    );
}

#[test]
fn method_names_are_matched_exactly() {
    assert_eq!(
        Method::from_str("get"),
        Err(String::from("Invalid HTTP method get"))
    );
    assert_eq!(
        Method::from_str(" GET"),
        Err(String::from("Invalid HTTP method  GET"))
    );
    assert_eq!(
        Method::from_str("GET "),
        Err(String::from("Invalid HTTP method GET "))
    );
    assert_eq!(
        Method::from_str(""),
        Err(String::from("Invalid HTTP method "))
    );
}

#[test]
fn method_is_written_as_its_name() {
    assert_eq!(Method::GET.to_string(), "GET");
    assert_eq!(Method::DELETE.to_string(), "DELETE");
    assert_eq!(Method::OPTIONS.as_str(), "OPTIONS");
    assert_eq!(Method::PATCH.as_str(), "PATCH");
}

#[test]
fn method_is_read_back_from_its_name() {
    let all = [
        Method::GET,
        Method::HEAD,
        Method::POST,
        Method::PUT,
        Method::DELETE,
        Method::CONNECT,
        Method::OPTIONS,
        Method::TRACE,
        Method::PATCH,
    ];
    for m in all {
        assert_eq!(Method::from_str(&m.to_string()), Ok(m));
        assert_eq!(Method::from_str(m.as_str()), Ok(m));
    }
}
