use voice_dictation::json::transcript_of;
use voice_dictation::service::{
    authorization_header, connection_result, transcription_result, HttpReply,
};

fn reply(status: u16, body: &str) -> Result<HttpReply, String> {
    Ok(HttpReply { status, body: Ok(body.as_bytes().to_vec()) })
}

const HELLO: &str = r#"{"results":{"channels":[{"alternatives":[{"transcript":"hello world","confidence":0.98}]}]}}"#;

#[test]
fn header_carries_the_key() {
    assert_eq!(authorization_header("abc123"), "Token abc123");
    assert_eq!(authorization_header(""), "Token ");
}

#[test]
fn connection_succeeds_on_2xx() {
    assert_eq!(connection_result(Ok(200)), Ok(()));
    assert_eq!(connection_result(Ok(204)), Ok(()));
    assert_eq!(connection_result(Ok(299)), Ok(()));
}

#[test]
fn connection_401_is_invalid_key() {
    assert_eq!(
        connection_result(Ok(401)),
        Err("Invalid API key. Please check your Deepgram API key.".to_string())
    );
}

#[test]
fn connection_other_status_names_it() {
    assert_eq!(
        connection_result(Ok(500)),
        Err("API connection failed: 500 Internal Server Error".to_string())
    );
    assert_eq!(connection_result(Ok(403)), Err("API connection failed: 403 Forbidden".to_string()));
    assert_eq!(connection_result(Ok(302)), Err("API connection failed: 302 Found".to_string()));
    assert_eq!(connection_result(Ok(199)), Err("API connection failed: 199 <unknown status code>".to_string()));
}

#[test]
fn connection_send_failure_names_cause() {
    assert_eq!(
        connection_result(Err("dns error".to_string())),
        Err("Connection test failed: dns error".to_string())
    );
}

#[test]
fn transcript_is_extracted() {
    assert_eq!(transcription_result(reply(200, HELLO)), Ok("hello world".to_string()));
}

#[test]
fn missing_transcript_is_empty() {
    assert_eq!(transcription_result(reply(200, "{}")), Ok(String::new()));
    assert_eq!(transcription_result(reply(200, r#"{"results":{"channels":[]}}"#)), Ok(String::new()));
    assert_eq!(
        transcription_result(reply(200, r#"{"results":{"channels":[{"alternatives":[{"transcript":7}]}]}}"#)),
        Ok(String::new())
    );
    assert_eq!(transcription_result(reply(200, "[1,2]")), Ok(String::new()));
}

#[test]
fn invalid_json_is_parse_error() {
    for status in [200u16, 201, 204, 299, 401, 500, 302, 100] {
        for body in ["not json", "", "{\"results\":", "{} trailing"] {
            match transcription_result(reply(status, body)) {
                Err(m) => assert!(m.starts_with("JSON parse error: "), "{}", m),
                Ok(t) => panic!("parsed {:?}", t),
            }
        }
    }
}

#[test]
fn unreadable_body_is_parse_error() {
    let r = transcription_result(Ok(HttpReply { status: 200, body: Err("connection reset".to_string()) }));
    assert_eq!(r, Err("JSON parse error: connection reset".to_string()));
}

#[test]
fn non_2xx_status_is_api_error() {
    assert_eq!(
        transcription_result(reply(500, r#"{"err_code":"INTERNAL"}"#)),
        Err("API error: 500 Internal Server Error".to_string())
    );
    assert_eq!(transcription_result(reply(401, HELLO)), Err("API error: 401 Unauthorized".to_string()));
}

#[test]
fn send_failure_is_request_error() {
    assert_eq!(
        transcription_result(Err("timed out".to_string())),
        Err("Request failed: timed out".to_string())
    );
}

#[test]
fn transcript_of_walks_the_document() {
    let doc: serde_json::Value = serde_json::from_str(HELLO).unwrap();
    assert_eq!(transcript_of(&doc), "hello world");
    let other: serde_json::Value =
        serde_json::from_str(r#"{"results":{"channels":[{"alternatives":[]}]}}"#).unwrap();
    assert_eq!(transcript_of(&other), "");
}

#[test]
fn non_json_body_is_parse_error_whatever_the_status() {
    for status in [500u16, 401, 404] {
        match transcription_result(reply(status, "<html>error</html>")) {
            Err(m) => assert!(m.starts_with("JSON parse error: "), "{}", m),
            Ok(t) => panic!("parsed {:?}", t),
        }
        let unread = transcription_result(Ok(HttpReply { status, body: Err("reset".to_string()) }));
        assert_eq!(unread, Err("JSON parse error: reset".to_string()));
    }
}
