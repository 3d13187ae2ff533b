use todo_auth::api::LoginJson;
use todo_auth::api::login_request_body;
use todo_auth::client::LoginError;
use todo_auth::client::classify_response;

#[test]
fn test_client_classification() {
    // 200 means the credentials are valid.
    assert_eq!(classify_response(200, String::new()).unwrap(), true);
    // 404 (unknown user) and 403 (wrong password) mean they are not.
    assert_eq!(classify_response(404, String::new()).unwrap(), false);
    assert_eq!(classify_response(403, String::new()).unwrap(), false);
    // Anything else is an unexpected response, carried back whole.
    match classify_response(503, String::from("service down")) {
        Err(LoginError::ResponseError { status, response }) => {
            assert_eq!(status, 503);
            assert_eq!(response, "service down");
        }
        other => panic!("expected an unexpected-response error, got {:?}", other),
    }
}

#[test]
fn test_login_request_body_plain() {
    let j = LoginJson {
        username: String::from("john"),
        password: String::from("pa+ss"),
    };
    assert_eq!(
        login_request_body(&j),
        "{\"username\":\"john\",\"password\":\"pa+ss\"}"
    );
}

#[test]
fn test_login_request_body_matches_serde() {
    let j = LoginJson {
        username: String::from("john"),
        password: String::from("q\"uo\\te\n\t\u{1f}end"),
    };
    let body = login_request_body(&j);
    assert_eq!(
        body,
        "{\"username\":\"john\",\"password\":\"q\\\"uo\\\\te\\n\\t\\u001fend\"}"
    );
    // The body parses as JSON back to the same two fields.
    let value: serde_json::Value = serde_json::from_str(&body).unwrap();
    assert_eq!(value["username"].as_str().unwrap(), "john");
    assert_eq!(value["password"].as_str().unwrap(), "q\"uo\\te\n\t\u{1f}end");
}
