use http_profiler::status_code::StatusCode;

#[test]
fn known_codes_map_to_categories() {
    assert_eq!(StatusCode::from_num(200), StatusCode::Okay);
    assert_eq!(StatusCode::from_num(301), StatusCode::MovedPermanently);
    assert_eq!(StatusCode::from_num(404), StatusCode::NotFound);
    assert_eq!(StatusCode::from_num(416), StatusCode::RequestedRangeNotSatisfiable);
    assert_eq!(StatusCode::from_num(431), StatusCode::RequestHeaderFieldsTooLarge);
    assert_eq!(StatusCode::from_num(500), StatusCode::InternalServerError);
    assert_eq!(StatusCode::from_num(599), StatusCode::NetworkConnectTimeoutError);
}

#[test]
fn unlisted_codes_are_unknown() {
    assert_eq!(StatusCode::from_num(0), StatusCode::Unknown);
    assert_eq!(StatusCode::from_num(1), StatusCode::Unknown);
    assert_eq!(StatusCode::from_num(306), StatusCode::Unknown);
    assert_eq!(StatusCode::from_num(600), StatusCode::Unknown);
    assert_eq!(StatusCode::from_num(999), StatusCode::Unknown);
}

#[test]
fn categories_roundtrip_through_numbers() {
    let cats = vec![
        StatusCode::Continue,
        StatusCode::Okay,
        StatusCode::NoContent,
        StatusCode::Found,
        StatusCode::BadRequest,
        StatusCode::NotFound,
        StatusCode::ImATeapot,
        StatusCode::InternalServerError,
        StatusCode::NetworkConnectTimeoutError,
        StatusCode::Unknown,
    ];
    for c in cats {
        assert_eq!(StatusCode::from_num(c.to_num()), c);
    }
}

#[test]
fn numbers_behind_categories() {
    assert_eq!(StatusCode::Okay.to_num(), 200);
    assert_eq!(StatusCode::NotFound.to_num(), 404);
    assert_eq!(StatusCode::Unknown.to_num(), 0);
}

#[test]
fn display_names() {
    assert_eq!(StatusCode::Okay.name(), "OK");
    assert_eq!(StatusCode::NotFound.name(), "Not Found");
    assert_eq!(StatusCode::Unknown.name(), "Unknown");
}
