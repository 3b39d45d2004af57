use bundle_pipeline::request::parse_request;

#[test]
fn well_formed_request_parses() {
    let r = parse_request("{\"component_id\":\"abc123\",\"code\":\"export default () => 1;\"}");
    let req = r.expect("a well-formed body must parse");
    assert_eq!(req.component_id, "abc123");
    assert_eq!(req.code, "export default () => 1;");
}

#[test]
fn extra_fields_are_ignored() {
    let r = parse_request("{\"component_id\":\"x\",\"code\":\"y\",\"other\":3}");
    let req = r.unwrap();
    assert_eq!(req.component_id, "x");
    assert_eq!(req.code, "y");
}

#[test]
fn malformed_json_reports_the_parser_error() {
    let r = parse_request("not json");
    let msg = r.expect_err("a malformed body must be rejected");
    assert!(msg.contains("line 1"));
}

#[test]
fn truncated_json_is_rejected() {
    assert!(parse_request("{\"component_id\":\"abc").is_err());
}

#[test]
fn missing_component_id_is_rejected() {
    let msg = parse_request("{\"code\":\"x\"}").expect_err("the identifier is required");
    assert!(msg.contains("component_id"));
}

#[test]
fn missing_code_is_rejected() {
    let msg = parse_request("{\"component_id\":\"x\"}").expect_err("the code is required");
    assert!(msg.contains("code"));
}

#[test]
fn non_string_fields_are_rejected() {
    assert!(parse_request("{\"component_id\":7,\"code\":\"x\"}").is_err());
    assert!(parse_request("{\"component_id\":\"x\",\"code\":[]}").is_err());
}

#[test]
fn non_object_bodies_are_rejected() {
    assert!(parse_request("[1,2,3]").is_err());
    assert!(parse_request("\"just a string\"").is_err());
}
