use fileserver::parser::Rejection;
use fileserver::response::Response;
use fileserver::response::file_response;

#[test]
fn readable_file_answers_ok_then_exact_bytes() {
    let contents = b"hello, world\n".to_vec();
    let resp = file_response(Some(contents.clone()));
    assert_eq!(resp.status_line(), "HTTP/1.1 200 OK\r\n\r\n");
    assert_eq!(resp.body(), Some(&contents));
}

#[test]
fn unreadable_file_answers_server_error_without_body() {
    let resp = file_response(None);
    assert_eq!(
        resp.status_line(),
        "HTTP/1.1 500 Couldn't get file contents\r\n\r\n"
    );
    assert_eq!(resp.body(), None);
}

#[test]
fn empty_file_answers_ok_with_empty_body() {
    let resp = file_response(Some(Vec::new()));
    assert_eq!(resp.status_line(), "HTTP/1.1 200 OK\r\n\r\n");
    assert_eq!(resp.body(), Some(&Vec::new()));
}

#[test]
fn rejection_status_lines_are_the_protocol_literals() {
    assert_eq!(
        Rejection::NoRequestType.status_line(),
        "HTTP/1.1 400 No Request Type\r\n\r\n"
    );
    assert_eq!(
        Rejection::NoPath.status_line(),
        "HTTP/1.1 400 No Path\r\n\r\n"
    );
    assert_eq!(
        Rejection::NoVersion.status_line(),
        "HTTP/1.1 400 No Version\r\n\r\n"
    );
    assert_eq!(
        Rejection::MethodNotAllowed.status_line(),
        "HTTP/1.1 403 Only GET requests are supported\r\n\r\n"
    );
}

#[test]
fn rejected_response_carries_its_rejections_line() {
    let resp = Response::Rejected(Rejection::MethodNotAllowed);
    assert_eq!(
        resp.status_line(),
        "HTTP/1.1 403 Only GET requests are supported\r\n\r\n"
    );
    assert_eq!(resp.body(), None);
}
