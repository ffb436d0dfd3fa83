use http_profiler::request::Request;
use http_profiler::HttpError;

#[test]
fn request_simple_request() {
    let req = Request::new_get("https://cf-general-assignment.raytran.workers.dev/".to_string());
    assert!(req.is_ok());
}

#[test]
fn test_broken_link() {
    let req = Request::new_get("http//completenonsense.com/".to_string());
    assert!(req.is_err())
}

#[test]
fn broken_link_reports_invalid_url() {
    let req = Request::new_get("no scheme separator here".to_string());
    assert!(matches!(req, Err(HttpError::InvalidUrl)));
}

#[test]
fn request_parts_from_url() {
    let req = Request::new_get("http://example.com/path/to?q=1".to_string()).unwrap();
    assert_eq!(req.get_host(), "example.com".to_string());
    assert_eq!(req.get_url(), "http://example.com/path/to?q=1".to_string());
    assert_eq!(req.get_port(), 80);
}

#[test]
fn request_serialized_form() {
    let req = Request::new_get("http://example.com/links".to_string()).unwrap();
    assert_eq!(
        req.to_string(),
        "GET /links HTTP/1.1\r\nHost: example.com \r\nConnection: close\r\n\r\n".to_string()
    );
}

#[test]
fn request_default_path_is_root() {
    let req = Request::new_get("http://example.com".to_string()).unwrap();
    assert_eq!(
        req.to_string(),
        "GET / HTTP/1.1\r\nHost: example.com \r\nConnection: close\r\n\r\n".to_string()
    );
}
