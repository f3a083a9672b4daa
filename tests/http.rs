use easy_socket::http::{get_request, post_request};

#[test]
fn get_request_text() {
    assert_eq!(
        get_request("/"),
        "GET / HTTP/1.1\r\nHost: localhost\r\nConnection: close\r\n\r\n"
    );
}

#[test]
fn post_request_text() {
    assert_eq!(
        post_request("/submit", "hello"),
        "POST /submit HTTP/1.1\r\nHost: localhost\r\nContent-Type: text/plain\r\nContent-Length: 5\r\nConnection: close\r\n\r\nhello"
    );
}

#[test]
fn post_content_length_counts_bytes() {
    let body = "héllo wörld";
    let req = post_request("/x", body);
    assert!(req.contains("\r\nContent-Length: 13\r\n"));
    assert!(req.ends_with("\r\n\r\nhéllo wörld"));
}

#[test]
fn post_content_length_of_empty_and_long_bodies() {
    assert!(post_request("/", "").contains("Content-Length: 0\r\n"));
    assert!(post_request("/", "").ends_with("\r\n\r\n"));
    let body = "z".repeat(1234);
    let req = post_request("/big", &body);
    assert!(req.contains("Content-Length: 1234\r\n"));
    assert!(req.ends_with(&body));
}
