use bunqers::deserialization::{classify, decode_single, parse_envelope, DecodeError, PathStep};
use bunqers::json::{parse_json, Json};
use bunqers::types::{ApiResponseBody, DeviceServerSmall};

#[test]
fn parse_json_reads_members() {
    let j = parse_json(b"{\"a\": 1, \"b\": \"x\"}").unwrap();
    assert_eq!(j.get("a").unwrap().as_u64(), Some(1));
    assert_eq!(j.get("b").unwrap().as_str().unwrap(), "x");
    assert!(j.get("c").is_none());
}

#[test]
fn classify_payload_without_error() {
    let j = parse_json(b"{\"Response\": []}").unwrap();
    match classify(j).unwrap() {
        ApiResponseBody::Payload(p) => assert!(p.get("Response").is_some()),
        ApiResponseBody::Errors(_) => panic!("expected a payload"),
    }
}

#[test]
fn decode_single_reads_one_element() {
    let j = parse_json(b"{\"Response\": [{\"Id\": {\"id\": 42}}]}").unwrap();
    let single = decode_single::<DeviceServerSmall>(&j).unwrap();
    assert_eq!(single.0.id, 42);
}

#[test]
fn malformed_body_is_malformed_json() {
    assert!(matches!(parse_envelope(b"{not json"), Err(DecodeError::MalformedJson)));
}

#[test]
fn json_null_is_null() {
    let j = parse_json(b"null").unwrap();
    assert!(j.is_null());
    assert!(matches!(j, Json::Null));
}

#[test]
fn error_member_wins_over_response() {
    let body = b"{\"Error\": [{\"error_description\": \"Bad\", \"error_description_translated\": \"Slecht\"}], \"Response\": [{\"Id\": {\"id\": 1}}]}";
    match parse_envelope(body).unwrap() {
        ApiResponseBody::Errors(list) => {
            assert_eq!(list.len(), 1);
            assert_eq!(list[0].description, "Bad");
            assert_eq!(list[0].translated, "Slecht");
        }
        ApiResponseBody::Payload(_) => panic!("the error list must win"),
    }
}

#[test]
fn malformed_error_list_is_shape_mismatch() {
    let body = b"{\"Error\": [{\"error_description\": 3}]}";
    assert!(matches!(parse_envelope(body), Err(DecodeError::ShapeMismatch { .. })));
}

#[test]
fn decode_single_rejects_empty_response() {
    let j = parse_json(b"{\"Response\": []}").unwrap();
    assert!(matches!(decode_single::<DeviceServerSmall>(&j), Err(DecodeError::ShapeMismatch { .. })));
}

#[test]
fn decode_single_rejects_two_elements() {
    let j = parse_json(b"{\"Response\": [{\"Id\": {\"id\": 1}}, {\"Id\": {\"id\": 2}}]}").unwrap();
    assert!(matches!(decode_single::<DeviceServerSmall>(&j), Err(DecodeError::ShapeMismatch { .. })));
}

#[test]
fn decode_single_rejects_missing_response() {
    let j = parse_json(b"{}").unwrap();
    assert!(matches!(decode_single::<DeviceServerSmall>(&j), Err(DecodeError::ShapeMismatch { .. })));
}

#[test]
fn failing_single_element_is_named() {
    let j = parse_json(b"{\"Response\": [{\"Id\": {\"id\": \"x\"}}]}").unwrap();
    match decode_single::<DeviceServerSmall>(&j) {
        Err(DecodeError::ShapeMismatch { path }) => {
            assert!(matches!(path.last(), Some(PathStep::Member(m)) if m == "Response"));
            assert!(matches!(path[path.len() - 2], PathStep::Index(0)));
            assert!(matches!(&path[0], PathStep::Member(m) if m == "id"));
            assert_eq!(path.len(), 4);
        }
        _ => panic!("the id is not a number"),
    }
}
