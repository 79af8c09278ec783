use dsh_clients::request::PathPart::{Fixed, Param};
use dsh_clients::request::{catalog_status_ok, request_url, response_outcome, ResponseOutcome};

const BASE: &str = "https://api.dsh-dev.dsh.np.aws.kpn.com/resources/v0";

#[test]
fn request_url_joins_base_and_path() {
    let url = request_url(
        BASE,
        &[Fixed("/allocation/"), Param("greenbox-dev"), Fixed("/application/configuration")],
    );
    assert_eq!(
        url,
        "https://api.dsh-dev.dsh.np.aws.kpn.com/resources/v0/allocation/greenbox-dev/application/configuration"
    );
}

#[test]
fn request_url_with_no_parts_is_the_base() {
    assert_eq!(request_url(BASE, &[]), BASE);
}

#[test]
fn request_url_encodes_reserved_characters_of_a_parameter() {
    let url = request_url("", &[Fixed("/topic/"), Param("a b/c?d#e%f")]);
    assert_eq!(url, "/topic/a%20b%2Fc%3Fd%23e%25f");
}

#[test]
fn request_url_encodes_quotes_brackets_and_backquote() {
    let url = request_url("", &[Param("\"<>`{}")]);
    assert_eq!(url, "%22%3C%3E%60%7B%7D");
}

#[test]
fn request_url_encodes_controls_and_non_ascii_bytes() {
    let url = request_url("", &[Param("x\n\u{7f}é")]);
    assert_eq!(url, "x%0A%7F%C3%A9");
}

#[test]
fn request_url_keeps_unreserved_punctuation() {
    let url = request_url("", &[Param("a-b_c.d~e!$&'()*+,;=:@[]")]);
    assert_eq!(url, "a-b_c.d~e!$&'()*+,;=:@[]");
}

#[test]
fn request_url_leaves_fixed_text_alone() {
    let url = request_url("b", &[Fixed("/a b/"), Param("a b")]);
    assert_eq!(url, "b/a b/a%20b");
}

#[test]
fn distinct_parameters_give_distinct_urls() {
    let a = request_url(BASE, &[Fixed("/topic/"), Param("a/b")]);
    let b = request_url(BASE, &[Fixed("/topic/"), Param("a%2Fb")]);
    assert_ne!(a, b);
}

#[test]
fn encoded_parameter_adds_no_segment_query_or_fragment() {
    let url = request_url("", &[Param("../x?y=1#z")]);
    assert!(!url.contains('/'));
    assert!(!url.contains('?'));
    assert!(!url.contains('#'));
}

#[test]
fn response_outcome_reads_the_success_status() {
    assert_eq!(response_outcome(200, 200, None), ResponseOutcome::Success);
    assert_eq!(response_outcome(202, 202, Some(500)), ResponseOutcome::Success);
}

#[test]
fn response_outcome_reads_a_documented_error() {
    assert_eq!(response_outcome(500, 202, Some(500)), ResponseOutcome::DocumentedError);
    assert_eq!(response_outcome(400, 202, Some(400)), ResponseOutcome::DocumentedError);
}

#[test]
fn response_outcome_reads_any_other_status_as_unexpected() {
    assert_eq!(response_outcome(404, 200, None), ResponseOutcome::Unexpected);
    assert_eq!(response_outcome(200, 202, Some(500)), ResponseOutcome::Unexpected);
    assert_eq!(response_outcome(400, 202, Some(500)), ResponseOutcome::Unexpected);
}

#[test]
fn catalog_status_ok_rejects_client_and_server_errors() {
    assert!(catalog_status_ok(200));
    assert!(catalog_status_ok(204));
    assert!(catalog_status_ok(302));
    assert!(catalog_status_ok(399));
    assert!(!catalog_status_ok(400));
    assert!(!catalog_status_ok(404));
    assert!(!catalog_status_ok(500));
    assert!(!catalog_status_ok(599));
    assert!(catalog_status_ok(600));
}
