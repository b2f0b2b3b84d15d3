use wappalyzer_rust::detector::{check_pattern, extract_version};
use wappalyzer_rust::technologies::Pattern;

#[test]
fn test_check_pattern_simple() {
    let pattern = Pattern::new("wordpress");
    assert!(check_pattern("This is wordpress content", &pattern));
    assert!(!check_pattern("This is drupal content", &pattern));
}

#[test]
fn test_check_pattern_regex() {
    let pattern = Pattern::new(r"/wp-content/");
    assert!(check_pattern("/wp-content/themes/style.css", &pattern));
    assert!(!check_pattern("/themes/style.css", &pattern));
}

#[test]
fn test_extract_version() {
    let pattern = Pattern::with_version(r"WordPress ([0-9.]+)", "$1");
    let version = extract_version("WordPress 6.4.2", &pattern);
    assert_eq!(version, Some("6.4.2".to_string()));
}

#[test]
fn test_extract_version_no_match() {
    let pattern = Pattern::with_version(r"WordPress ([0-9.]+)", "$1");
    let version = extract_version("Drupal 10.0", &pattern);
    assert_eq!(version, None);
}

#[test]
fn test_check_pattern_invalid_regex_falls_back_to_containment() {
    let pattern = Pattern::new("foo(bar");
    assert!(check_pattern("baz foo(bar qux", &pattern));
    assert!(!check_pattern("foobar", &pattern));
}

#[test]
fn test_extract_version_without_template_is_none() {
    let pattern = Pattern::new(r"WordPress ([0-9.]+)");
    assert_eq!(extract_version("WordPress 6.4.2", &pattern), None);
}

#[test]
fn test_extract_version_invalid_regex_is_none() {
    let pattern = Pattern::with_version("foo(bar", "$1");
    assert_eq!(extract_version("text with foo(bar inside", &pattern), None);
}

#[test]
fn test_extract_version_without_capture_group_is_none() {
    let pattern = Pattern::with_version(r"WordPress [0-9.]+", "$1");
    assert_eq!(extract_version("WordPress 6.4", &pattern), None);
}
