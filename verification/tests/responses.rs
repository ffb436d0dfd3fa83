use http_profiler::response::Response;
use http_profiler::status_code::StatusCode;

#[test]
fn response_simple_request() {
    let raw = "HTTP/1.1 200 OK\r\n\
               Date: Sat, 10 Oct 2020 20:42:41 GMT \r\n\
               Content-Type: application/json;charset=UTF-8\r\n\
               Content-Length: 387\r\n\
               Connection: close\r\n\
               [";

    let res = Response::from_raw(400, raw.parse().unwrap());
    assert_eq!(res.status_code, StatusCode::Okay);
}

#[test]
fn status_ignores_byte_count() {
    let raw = "HTTP/1.1 200 OK\r\nContent-Length: 5\r\n\r\nhello";
    let a = Response::from_raw(0, raw.to_string());
    let b = Response::from_raw(12345, raw.to_string());
    assert_eq!(a.status_code, StatusCode::Okay);
    assert_eq!(b.status_code, StatusCode::Okay);
    assert_eq!(a.byte_count, 0);
    assert_eq!(b.byte_count, 12345);
}

#[test]
fn no_three_digit_token_is_unknown() {
    let raw = "HTTP/?? banana 12 4567 ab1cd\r\nno code anywhere";
    let res = Response::from_raw(9, raw.to_string());
    assert_eq!(res.status_code, StatusCode::Unknown);
    assert_eq!(res.status_code.to_num(), 0);
}

#[test]
fn not_found_line_preserves_data() {
    let raw = "HTTP/1.1 404 Not Found\r\nConnection: close\r\n\r\ngone";
    let res = Response::from_raw(44, raw.to_string());
    assert_eq!(res.status_code, StatusCode::NotFound);
    assert_eq!(res.data, raw.to_string());
}

#[test]
fn first_three_digit_token_wins() {
    let raw = "x 999\r\n200 OK";
    let res = Response::from_raw(1, raw.to_string());
    assert_eq!(res.status_code, StatusCode::Unknown);

    let raw2 = "see 301 then 302";
    let res2 = Response::from_raw(1, raw2.to_string());
    assert_eq!(res2.status_code, StatusCode::MovedPermanently);
}

#[test]
fn longer_digit_runs_are_not_codes() {
    let raw = "1234 200 OK";
    let res = Response::from_raw(1, raw.to_string());
    assert_eq!(res.status_code, StatusCode::Okay);
}

#[test]
fn empty_text_is_unknown() {
    let res = Response::from_raw(0, String::new());
    assert_eq!(res.status_code, StatusCode::Unknown);
}
