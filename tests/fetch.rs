use nuccore_fetch::fetch::{invalid_response, snippet, status_error};
use nuccore_fetch::{validate_response, AppError};

const URL: &str = "https://example.org/x";

#[test]
fn error_text_with_success_status_is_invalid() {
    let r = validate_response(URL, 200, "200 OK", b"Error: unrecognized id".to_vec());
    match r {
        Err(AppError::InvalidResponseError(s)) => assert_eq!(s, "Error: unrecognized id"),
        other => panic!("unexpected {:?}", other),
    }
}

#[test]
fn fasta_body_comes_back_unchanged() {
    let body = b">seq1\nACGT\n".to_vec();
    let r = validate_response(URL, 200, "200 OK", body.clone()).unwrap();
    assert_eq!(r, body);
}

#[test]
fn fasta_body_bytes_are_not_transcoded() {
    let body = vec![b'>', 0xff, 0x00, b'\r', b'\n', 0xc3];
    let r = validate_response(URL, 200, "200 OK", body.clone()).unwrap();
    assert_eq!(r, body);
}

#[test]
fn not_found_is_a_status_error() {
    let r = validate_response(URL, 404, "404 Not Found", b">seq".to_vec());
    match r {
        Err(AppError::StatusCodeError(s)) => assert_eq!(
            s,
            "Failed to download file from https://example.org/x. [ERROR]: `404 Not Found`"
        ),
        other => panic!("unexpected {:?}", other),
    }
}

#[test]
fn statuses_outside_success_range_fail() {
    assert!(matches!(validate_response(URL, 503, "", b">a".to_vec()), Err(AppError::StatusCodeError(_))));
    assert!(matches!(validate_response(URL, 199, "", b">a".to_vec()), Err(AppError::StatusCodeError(_))));
    assert!(matches!(validate_response(URL, 300, "", b">a".to_vec()), Err(AppError::StatusCodeError(_))));
    assert!(validate_response(URL, 299, "", b">a".to_vec()).is_ok());
}

#[test]
fn empty_body_is_invalid() {
    match validate_response(URL, 200, "", Vec::new()) {
        Err(AppError::InvalidResponseError(s)) => assert_eq!(s, ""),
        other => panic!("unexpected {:?}", other),
    }
}

#[test]
fn long_invalid_body_is_cut_to_snippet() {
    let mut body = b"  Error: ".to_vec();
    body.extend(std::iter::repeat(b'x').take(200));
    match validate_response(URL, 200, "", body) {
        Err(AppError::InvalidResponseError(s)) => {
            let expected = format!("Error: {}", "x".repeat(91));
            assert_eq!(s, expected);
        }
        other => panic!("unexpected {:?}", other),
    }
}

#[test]
fn invalid_utf8_is_replaced_in_snippet() {
    let body = vec![b'E', 0xff, b'!', b' '];
    match validate_response(URL, 200, "", body) {
        Err(AppError::InvalidResponseError(s)) => assert_eq!(s, "E\u{fffd}!"),
        other => panic!("unexpected {:?}", other),
    }
}

#[test]
fn snippet_keeps_at_most_one_hundred_bytes() {
    assert_eq!(snippet(&vec![7u8; 150]).len(), 100);
    assert_eq!(snippet(&vec![7u8; 3]), vec![7u8; 3]);
}

#[test]
fn invalid_response_trims_decoded_text() {
    match invalid_response("  oops \n") {
        AppError::InvalidResponseError(s) => assert_eq!(s, "oops"),
        other => panic!("unexpected {:?}", other),
    }
}

#[test]
fn status_error_names_url_and_reason() {
    match status_error("u", "r") {
        AppError::StatusCodeError(s) => assert_eq!(s, "Failed to download file from u. [ERROR]: `r`"),
        other => panic!("unexpected {:?}", other),
    }
}

#[test]
fn error_messages() {
    assert_eq!(AppError::IoError("disk full".to_string()).message(), "IO error: disk full");
    assert_eq!(AppError::ReqwestMiddlewareError("m".to_string()).message(), "Request error: m");
    assert_eq!(AppError::ReqwestError("r".to_string()).message(), "Request error: r");
    assert_eq!(AppError::StatusCodeError("s".to_string()).message(), "Download error: s");
    assert_eq!(AppError::InvalidResponseError("i".to_string()).message(), "Invalid request response: i");
    assert_eq!(AppError::EmptyAccessionList.message(), "No valid accessions provided");
}
