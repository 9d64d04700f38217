use bourso_api::page::{
    extract_flow_instance, extract_flow_step, is_confirmation_given_step, is_confirmation_page,
    transfer_id_from_location,
};
use bourso_api::text::{contains, nth_segment_of};

#[test]
fn test_extract_flow_step() {
    let body = r#"<input  id="form_flow_ImmediateCashTransfer_step" type="hidden" class="c-field__input" name="flow_ImmediateCashTransfer_step" value="9" >"#;

    assert_eq!(extract_flow_step(body), Some("9".to_string()));
}

#[test]
fn test_extract_flow_step_absent() {
    assert_eq!(extract_flow_step("<html><body>Confirmation</body></html>"), None);
}

#[test]
fn extract_flow_step_takes_multi_digit_steps_and_spaces() {
    let body = "<input name=\"flow_ImmediateCashTransfer_step\"   value=\"10\">";
    assert_eq!(extract_flow_step(body), Some("10".to_string()));
}

#[test]
fn extract_flow_step_ignores_non_numeric_values() {
    let body = "<input name=\"flow_ImmediateCashTransfer_step\" value=\"x\">";
    assert_eq!(extract_flow_step(body), None);
}

#[test]
fn extract_flow_instance_reads_the_hidden_field() {
    let body = r#"<form><input type="hidden" name="flow_ImmediateCashTransfer_instance" value="abc123XYZ"></form>"#;
    assert_eq!(extract_flow_instance(body), Some("abc123XYZ".to_string()));
}

#[test]
fn extract_flow_instance_absent() {
    assert_eq!(extract_flow_instance("<html></html>"), None);
}

#[test]
fn confirmation_page_with_success_alert() {
    let body = r#"<div class="c-alert c-alert--success">Virement effectué</div>"#;
    assert!(is_confirmation_page(body));
}

#[test]
fn confirmation_page_with_confirmation_heading() {
    let body = "<h3 class=\"title\">Confirmation</h3>";
    assert!(is_confirmation_page(body));
}

#[test]
fn rerendered_form_is_never_a_confirmation() {
    let body = r#"<div class="c-alert--success"></div><input name="flow_ImmediateCashTransfer_step" value="9">"#;
    assert!(!is_confirmation_page(body));
}

#[test]
fn page_without_marker_is_not_a_confirmation() {
    assert!(!is_confirmation_page("<html><body>Confirmation</body></html>"));
}

#[test]
fn confirmation_given_step() {
    assert!(!is_confirmation_given_step(&Some("9".to_string()), "c-alert--success"));
    assert!(is_confirmation_given_step(&None, "x c-alert--success y"));
    assert!(!is_confirmation_given_step(&None, "nothing here"));
}

#[test]
fn transfer_id_is_the_eighth_path_piece() {
    assert_eq!(
        transfer_id_from_location("/compte/cav/XXXXXXX/virements/immediat/nouveau/YYYYY/1"),
        Some("YYYYY".to_string())
    );
}

#[test]
fn transfer_id_missing_when_path_is_short() {
    assert_eq!(transfer_id_from_location("/compte/cav/XXXXXXX/virements/immediat/nouveau"), None);
    assert_eq!(transfer_id_from_location(""), None);
}

#[test]
fn transfer_id_may_be_empty_piece() {
    assert_eq!(
        transfer_id_from_location("/compte/cav/X/virements/immediat/nouveau/"),
        Some(String::new())
    );
}

#[test]
fn contains_finds_pieces() {
    assert!(contains("hello world", "lo w"));
    assert!(contains("abc", ""));
    assert!(contains("abc", "abc"));
    assert!(!contains("abc", "abcd"));
    assert!(!contains("abc", "bd"));
    assert!(contains("héllo", "éll"));
}

#[test]
fn nth_segment_matches_split_nth() {
    for text in ["a/b/c", "/x//y/", "", "no-sep", "é/ü/"] {
        for n in 0..5usize {
            let expected = text.split('/').nth(n).map(|s| s.to_string());
            assert_eq!(nth_segment_of(text, '/', n), expected, "{} {}", text, n);
        }
    }
}
