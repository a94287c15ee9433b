use voice_dictation::status::{status_is_success, status_text};

#[test]
fn known_codes_carry_their_reason() {
    assert_eq!(status_text(404), "404 Not Found");
    assert_eq!(status_text(500), "500 Internal Server Error");
    assert_eq!(status_text(401), "401 Unauthorized");
    assert_eq!(status_text(200), "200 OK");
    assert_eq!(status_text(100), "100 Continue");
}

#[test]
fn unknown_codes_say_so() {
    assert_eq!(status_text(599), "599 <unknown status code>");
    assert_eq!(status_text(0), "0 <unknown status code>");
    assert_eq!(status_text(7), "7 <unknown status code>");
    assert_eq!(status_text(65535), "65535 <unknown status code>");
}

#[test]
fn success_is_the_2xx_range() {
    assert!(!status_is_success(199));
    assert!(status_is_success(200));
    assert!(status_is_success(204));
    assert!(status_is_success(299));
    assert!(!status_is_success(300));
    assert!(!status_is_success(401));
}
