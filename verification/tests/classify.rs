use htget::classify::{classify_content_type, media_type_exec, render_language, Language};
use htget::strutil::str_eq;

#[test]
fn html_with_charset_classifies_as_html() {
    let r = classify_content_type(Some("text/html; charset=utf-8"));
    assert_eq!(r, Some(Language::Html));
}

#[test]
fn bare_html_classifies_as_html() {
    assert_eq!(classify_content_type(Some("text/html")), Some(Language::Html));
}

#[test]
fn json_classifies_as_json() {
    assert_eq!(classify_content_type(Some("application/json")), Some(Language::Json));
}

#[test]
fn absent_content_type_is_unknown() {
    assert_eq!(classify_content_type(None), None);
}

#[test]
fn unrecognized_content_type_is_unknown() {
    assert_eq!(classify_content_type(Some("text/plain")), None);
}

#[test]
fn media_type_strips_parameter_suffix() {
    assert_eq!(media_type_exec("text/html; charset=utf-8"), "text/html");
}

#[test]
fn media_type_without_parameters_is_whole() {
    assert_eq!(media_type_exec("application/json"), "application/json");
}

#[test]
fn declared_language_wins_over_override() {
    let r = render_language(Some(Language::Json), Some("html".to_string()));
    assert_eq!(r, Some("json".to_string()));
}

#[test]
fn override_used_when_nothing_declared() {
    let r = render_language(None, Some("rust".to_string()));
    assert_eq!(r, Some("rust".to_string()));
}

#[test]
fn no_hint_when_nothing_declared_and_no_override() {
    assert_eq!(render_language(None, None), None);
}

#[test]
fn str_eq_compares_by_characters() {
    assert!(str_eq("text/html", "text/html"));
    assert!(!str_eq("text/html", "text/htmk"));
    assert!(!str_eq("text/html", "text/html "));
}
