//! Tests for the text helpers, the positional extraction and the
//! response evaluation, including the real HTML parser on a full page.

use ag45_bot::extract::extract_record;
use ag45_bot::record::{FetchError, TournamentInformation, UserCredentials};
use ag45_bot::response::evaluate_response;
use ag45_bot::text::{split_str, str_contains};

fn record(name: &str, kind: &str, start: &str) -> TournamentInformation {
    TournamentInformation {
        tournament_name: name.to_string(),
        tournament_type: kind.to_string(),
        tournament_start_time: start.to_string(),
    }
}

#[test]
fn split_keeps_empty_pieces() {
    let parts = split_str("a>>b>", '>');
    assert_eq!(parts, vec!["a".to_string(), "".to_string(), "b".to_string(), "".to_string()]);
}

#[test]
fn split_without_separator_is_whole() {
    let parts = split_str("abc", '>');
    assert_eq!(parts, vec!["abc".to_string()]);
}

#[test]
fn contains_finds_multibyte_marker() {
    assert!(str_contains("<a href=\"/logout\">Выйти</a>", "Выйти"));
    assert!(!str_contains("<a href=\"/login\">Войти</a>", "Выйти"));
    assert!(str_contains("anything", ""));
}

#[test]
fn extract_reads_fixed_positions() {
    let fragment = "a>b>NAMExyz>c>d>e>f>g>h>TYPExyz>i>j>k>l>START123abc";
    let extracted = extract_record(fragment).unwrap();
    assert_eq!(extracted, record("NAME", "TYPE", "START123"));
}

#[test]
fn extract_rejects_too_few_segments() {
    assert_eq!(extract_record("a>b>c"), Err(FetchError::Parse));
    assert_eq!(extract_record(""), Err(FetchError::Parse));
}

#[test]
fn extract_rejects_short_segment() {
    // Segment 2 holds fewer characters than the tail that must be cut.
    let fragment = "a>b>xy>c>d>e>f>g>h>iiii>j>k>l>m>nnnn";
    assert_eq!(extract_record(fragment), Err(FetchError::Parse));
}

#[test]
fn extract_is_idempotent() {
    let fragment = "a>b>NAMExyz>c>d>e>f>g>h>TYPExyz>i>j>k>l>START123abc";
    assert_eq!(extract_record(fragment), extract_record(fragment));
    let bad = "a>b>c";
    assert_eq!(extract_record(bad), extract_record(bad));
}

fn page_with(cells: &str) -> String {
    format!(
        "<html><head><title>t</title></head><body><p><a href=\"/logout\">Выйти</a></p>\
         <table><tbody><tr>{}</tr></tbody></table></body></html>",
        cells
    )
}

const GOOD_CELL: &str =
    "<td class=\"pt\">a>NAMExyz>c>d>e>f>g>h>TYPExyz>i>j>k>l<s>START123</s></td>";

#[test]
fn non_success_status_is_http_error() {
    let body = page_with(GOOD_CELL);
    assert_eq!(evaluate_response(404, &body), Err(FetchError::HttpStatus(404)));
    assert_eq!(evaluate_response(500, &body), Err(FetchError::HttpStatus(500)));
    assert_eq!(evaluate_response(199, &body), Err(FetchError::HttpStatus(199)));
    assert_eq!(evaluate_response(300, &body), Err(FetchError::HttpStatus(300)));
}

#[test]
fn missing_marker_is_authentication_error() {
    let body = "<html><body><p>Войти</p></body></html>";
    assert_eq!(evaluate_response(200, body), Err(FetchError::Authentication));
}

#[test]
fn page_without_cells_is_parse_error() {
    let body = "<html><body><p>Выйти</p><table><tbody><tr><td class=\"other\">x</td></tr></tbody></table></body></html>";
    assert_eq!(evaluate_response(200, body), Err(FetchError::Parse));
}

#[test]
fn full_page_extracts_latest_record() {
    let body = page_with(GOOD_CELL);
    let extracted = evaluate_response(200, &body).unwrap();
    assert_eq!(extracted, record("NAME", "TYPE", "START123"));
}

#[test]
fn first_cell_wins() {
    let second =
        "<td class=\"pt\">a>OTHERxyz>c>d>e>f>g>h>KINDxyz1>i>j>k>l<s>LATER1</s></td>";
    let body = page_with(&format!("{}{}", GOOD_CELL, second));
    let extracted = evaluate_response(200, &body).unwrap();
    assert_eq!(extracted, record("NAME", "TYPE", "START123"));
}

#[test]
fn success_status_range_reaches_extraction() {
    let body = page_with(GOOD_CELL);
    assert!(evaluate_response(200, &body).is_ok());
    assert!(evaluate_response(204, &body).is_ok());
    assert!(evaluate_response(299, &body).is_ok());
}

#[test]
fn login_form_carries_credentials() {
    let creds = UserCredentials { username: "10205".to_string(), password: "secret".to_string() };
    let payload = creds.login_form();
    assert_eq!(
        payload,
        vec![
            ("username".to_string(), "10205".to_string()),
            ("password".to_string(), "secret".to_string()),
        ]
    );
}
