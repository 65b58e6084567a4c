use okaeri_sdk::client::{on_body, on_decode, on_dispatch, ApiUrl, HttpMethod, OkaeriClient};
use okaeri_sdk::error::OkaeriSdkError;
use okaeri_sdk::timeout::Timeout;

fn request_error(message: &str) -> OkaeriSdkError {
    OkaeriSdkError::ResponseError { group: String::from("REQUEST_ERROR"), message: String::from(message) }
}

#[test]
fn success_statuses_go_on() {
    assert_eq!(on_dispatch(Ok(200)), Ok(()));
    assert_eq!(on_dispatch(Ok(204)), Ok(()));
    assert_eq!(on_dispatch(Ok(299)), Ok(()));
}

#[test]
fn failed_status_is_response_error() {
    assert_eq!(on_dispatch(Ok(500)), Err(request_error("received invalid status code 500")));
    assert_eq!(on_dispatch(Ok(199)), Err(request_error("received invalid status code 199")));
    assert_eq!(on_dispatch(Ok(300)), Err(request_error("received invalid status code 300")));
    assert_eq!(on_dispatch(Ok(404)), Err(request_error("received invalid status code 404")));
}

#[test]
fn transport_failure_is_response_error() {
    assert_eq!(
        on_dispatch(Err(String::from("operation timed out"))),
        Err(request_error("failed to dispatch request: operation timed out"))
    );
}

#[test]
fn body_text_is_decoded() {
    assert_eq!(on_body(Ok(b"{\"a\":1}".to_vec())), Ok(String::from("{\"a\":1}")));
    assert_eq!(on_body(Ok("zażółć".as_bytes().to_vec())), Ok(String::from("zażółć")));
    assert_eq!(on_body(Ok(Vec::new())), Ok(String::new()));
}

#[test]
fn body_not_utf8_is_response_error() {
    match on_body(Ok(vec![0x7b, 0xff, 0x7d])) {
        Err(OkaeriSdkError::ResponseError { group, message }) => {
            assert_eq!(group, "REQUEST_ERROR");
            assert!(message.starts_with("failed to convert body to string: "));
        }
        other => panic!("unexpected {:?}", other),
    }
}

#[test]
fn body_read_failure_is_response_error() {
    assert_eq!(
        on_body(Err(String::from("connection reset"))),
        Err(request_error("failed to process request: connection reset"))
    );
}

#[test]
fn undecodable_body_is_kept_exactly() {
    let body = String::from("{\"general\": 1, \"oops\"");
    assert_eq!(
        on_decode::<u64>(body.clone(), None),
        Err(OkaeriSdkError::ResponseParseError { body })
    );
}

#[test]
fn decoded_record_is_returned() {
    assert_eq!(on_decode(String::from("42"), Some(42u64)), Ok(42u64));
}

#[test]
fn get_joins_base_and_path_verbatim() {
    let base = ApiUrl::parse("https://example.com").unwrap();
    let headers = vec![(String::from("Token"), String::from("t"))];
    let client = OkaeriClient::new(base, Timeout::from_millis(250), headers.clone()).unwrap();
    let req = client.get("/v1/x");
    assert_eq!(req.method, HttpMethod::Get);
    assert_eq!(req.url, "https://example.com//v1/x");
    assert_eq!(req.headers, headers);
    assert_eq!(req.body, "");
    assert_eq!(req.timeout, Timeout::from_millis(250));
}

#[test]
fn post_carries_body() {
    let base = ApiUrl::parse("http://localhost:9000/api/").unwrap();
    let client = OkaeriClient::new(base, Timeout::from_secs(1), Vec::new()).unwrap();
    let req = client.post("predict", String::from("{}"));
    assert_eq!(req.method, HttpMethod::Post);
    assert_eq!(req.url, "http://localhost:9000/api/predict");
    assert!(req.headers.is_empty());
    assert_eq!(req.body, "{}");
}
