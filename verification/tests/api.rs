use pastebot::api::{attachment_url, file_content_type, Error, CORS_HEADER, CORS_ORIGIN};

#[test]
fn url_joins_segments() {
    assert_eq!(
        attachment_url("123", "456", "log.txt"),
        "https://cdn.discordapp.com/attachments/123/456/log.txt"
    );
}

#[test]
fn missing_and_forbidden_are_not_found() {
    assert!(matches!(file_content_type(404, None), Err(Error::NotFound)));
    assert!(matches!(file_content_type(403, Some(b"text/html".to_vec())), Err(Error::NotFound)));
}

#[test]
fn content_type_is_kept_or_defaulted() {
    match file_content_type(200, Some(b"text/x-rust".to_vec())) {
        Ok(ct) => assert_eq!(ct, b"text/x-rust".to_vec()),
        Err(_) => panic!("expected a content type"),
    }
    match file_content_type(200, None) {
        Ok(ct) => assert_eq!(ct, b"text/plain; charset=utf-8".to_vec()),
        Err(_) => panic!("expected the default content type"),
    }
    assert!(file_content_type(500, None).is_ok());
}

#[test]
fn error_responses() {
    let r = Error::NotFound.into_response();
    assert_eq!(r.status, 404);
    assert_eq!(r.body, "404 not found");
    let r = Error::Reqwest("timed out".to_string()).into_response();
    assert_eq!(r.status, 500);
    assert_eq!(r.body, "HTTP error: timed out");
}

#[test]
fn api_error_messages() {
    assert_eq!(Error::NotFound.message(), "404 file not found");
    assert_eq!(Error::Reqwest("x".to_string()).message(), "HTTP error: x");
}

#[test]
fn cors_header_names_the_paste_site() {
    assert_eq!(CORS_HEADER, "access-control-allow-origin");
    assert_eq!(CORS_ORIGIN, "https://paste.valk.sh");
}
