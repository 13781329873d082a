use osc::mpi::{decimal_text, reply, session_of, Request, SOCKET};

#[test]
fn decimal_text_writes_the_digits() {
    assert_eq!(decimal_text(0), "0");
    assert_eq!(decimal_text(7), "7");
    assert_eq!(decimal_text(10), "10");
    assert_eq!(decimal_text(4096), "4096");
    assert_eq!(decimal_text(u64::MAX as u128), u64::MAX.to_string());
    assert_eq!(decimal_text(u128::MAX), u128::MAX.to_string());
}

#[test]
fn open_request_names_the_client_and_size() {
    let r = Request::Open { client_name: String::from("osc"), max_payload_size: 4096 };
    assert_eq!(r.path(), "/MpiOpen");
    assert_eq!(r.body(), r#"{"ClientName":"osc","MaxPayloadSizeBytes":4096}"#);
}

#[test]
fn session_requests_name_the_session() {
    let r = Request::Close { session: String::from("s-1") };
    assert_eq!(r.path(), "/MpiClose");
    assert_eq!(r.body(), r#"{"ClientSession":"s-1"}"#);
    let r = Request::GetReported { session: String::from("s-1") };
    assert_eq!(r.path(), "/MpiGetReported");
    assert_eq!(r.body(), r#"{"ClientSession":"s-1"}"#);
}

#[test]
fn get_and_set_requests_name_the_object() {
    let r = Request::Get { session: String::from("s"), component: String::from("C"), object: String::from("o") };
    assert_eq!(r.path(), "/MpiGet");
    assert_eq!(r.body(), r#"{"ClientSession":"s","ComponentName":"C","ObjectName":"o"}"#);
    let r = Request::SetObject {
        session: String::from("s"),
        component: String::from("C"),
        object: String::from("o"),
        payload: String::from("[1,2]"),
    };
    assert_eq!(r.path(), "/MpiSet");
    assert_eq!(r.body(), r#"{"ClientSession":"s","ComponentName":"C","ObjectName":"o","Payload":[1,2]}"#);
}

#[test]
fn request_strings_are_escaped_as_json() {
    let r = Request::Close { session: String::from("\u{1}\t/é") };
    assert_eq!(r.body(), "{\"ClientSession\":\"\\u0001\\t/é\"}");
    let r = Request::Close { session: String::from("a\"b\\c\n") };
    assert_eq!(r.body(), r#"{"ClientSession":"a\"b\\c\n"}"#);
    let parsed: serde_json::Value = serde_json::from_str(&r.body()).unwrap();
    assert_eq!(parsed["ClientSession"], "a\"b\\c\n");
}

#[test]
fn replies_succeed_only_with_status_200() {
    assert_eq!(reply(200, String::from("{}")), Ok(String::from("{}")));
    assert_eq!(reply(404, String::from("{}")), Err(404));
    assert_eq!(reply(500, String::new()), Err(500));
}

#[test]
fn session_is_read_from_a_json_string() {
    assert_eq!(session_of("\"abc-123\"").unwrap(), "abc-123");
    assert!(session_of("abc").is_err());
    assert!(session_of("42").is_err());
    assert_eq!(SOCKET, "/run/osconfig/mpid.sock");
}
