use wappalyzer_rust::technologies::{load_technologies, Pattern, Technology};
use wappalyzer_rust::{Analyzer, WebPage};

fn empty_page() -> WebPage {
    WebPage {
        url: "https://example.test".to_string(),
        html: String::new(),
        headers: Vec::new(),
        cookies: Vec::new(),
        scripts: Vec::new(),
        meta_tags: Vec::new(),
    }
}

fn catalog_entry(name: &str) -> Technology {
    load_technologies()
        .into_iter()
        .find(|t| t.name == name)
        .expect("technology present in catalog")
}

#[test]
fn test_wordpress_html_and_meta_yield_version_and_summed_confidence() {
    let analyzer = Analyzer::new();
    let wordpress = catalog_entry("WordPress");
    let mut page = empty_page();
    page.html = "<link href=\"/wp-content/themes/a.css\">".to_string();
    page.meta_tags = vec![("generator".to_string(), "WordPress 6.4.2".to_string())];

    let result = analyzer
        .detect_technology(&wordpress, &page)
        .expect("WordPress detected");
    assert_eq!(result.version, Some("6.4.2".to_string()));
    assert!(result.confidence >= 45);
    assert!(result.confidence <= 100);
}

#[test]
fn test_nginx_server_header_yields_version_and_single_entry() {
    let analyzer = Analyzer::new();
    let nginx = catalog_entry("Nginx");
    let mut page = empty_page();
    page.headers = vec![("server".to_string(), "nginx/1.18.0".to_string())];

    let result = analyzer
        .detect_technology(&nginx, &page)
        .expect("Nginx detected");
    assert_eq!(result.version, Some("1.18.0".to_string()));
    assert_eq!(result.confidence, 30);
    assert_eq!(
        result.matched_patterns,
        vec!["Header: nginx/([0-9.]+)".to_string()]
    );
}

#[test]
fn test_five_html_rules_clamp_confidence_at_100() {
    let analyzer = Analyzer::new();
    let tech = Technology {
        name: "Fixture".to_string(),
        category: "Test".to_string(),
        website: None,
        html: Some(vec![
            Pattern::new("aa"),
            Pattern::new("bb"),
            Pattern::new("cc"),
            Pattern::new("dd"),
            Pattern::new("ee"),
        ]),
        scripts: None,
        headers: None,
        meta: None,
        cookies: None,
    };
    let mut page = empty_page();
    page.html = "aa bb cc dd ee".to_string();

    let result = analyzer.detect_technology(&tech, &page).expect("detected");
    assert_eq!(result.confidence, 100);
    assert_eq!(result.matched_patterns.len(), 5);
}

#[test]
fn test_page_with_no_signals_yields_empty_output() {
    let analyzer = Analyzer::new();
    let results = analyzer.analyze(&empty_page());
    assert!(results.is_empty());
}

#[test]
fn test_cookie_only_match_has_no_version() {
    let analyzer = Analyzer::new();
    let analytics = catalog_entry("Google Analytics");
    let mut page = empty_page();
    page.cookies = vec![("_ga".to_string(), "GA1.2.1234".to_string())];

    let result = analyzer
        .detect_technology(&analytics, &page)
        .expect("Google Analytics detected");
    assert_eq!(result.version, None);
    assert_eq!(result.confidence, 25);
    assert_eq!(result.matched_patterns, vec!["Cookie: .".to_string()]);
}

#[test]
fn test_zero_matched_surfaces_yield_nothing() {
    let analyzer = Analyzer::new();
    let wordpress = catalog_entry("WordPress");
    let mut page = empty_page();
    page.html = "a plain static page".to_string();
    assert!(analyzer.detect_technology(&wordpress, &page).is_none());
}

#[test]
fn test_output_is_sorted_by_descending_confidence() {
    let analyzer = Analyzer::new();
    let mut page = empty_page();
    page.html = "<link href=\"/wp-content/themes/a.css\">".to_string();
    page.headers = vec![("server".to_string(), "nginx/1.18.0".to_string())];
    page.cookies = vec![("_ga".to_string(), "GA1.2.1234".to_string())];

    let results = analyzer.analyze(&page);
    assert!(!results.is_empty());
    for pair in results.windows(2) {
        assert!(pair[0].confidence >= pair[1].confidence);
    }
    for r in &results {
        assert!(r.confidence <= 100);
        assert!(!r.matched_patterns.is_empty());
    }

    let conf_of = |name: &str| {
        results
            .iter()
            .find(|r| r.name == name)
            .map(|r| r.confidence)
            .expect("expected detection")
    };
    assert_eq!(conf_of("Nginx"), 30);
    assert_eq!(conf_of("Google Analytics"), 25);
    assert_eq!(conf_of("WordPress"), 20);
}

#[test]
fn test_equal_confidence_keeps_catalog_order() {
    let analyzer = Analyzer::new();
    let mut page = empty_page();
    page.cookies = vec![
        ("_ga".to_string(), "GA1.2.1234".to_string()),
        ("_shopify_visit".to_string(), "1".to_string()),
    ];

    let results = analyzer.analyze(&page);
    assert_eq!(results.len(), 2);
    assert_eq!(results[0].name, "Shopify");
    assert_eq!(results[1].name, "Google Analytics");
    assert_eq!(results[0].confidence, results[1].confidence);
}

#[test]
fn test_first_extracted_version_wins() {
    let analyzer = Analyzer::new();
    let tech = Technology {
        name: "Fixture".to_string(),
        category: "Test".to_string(),
        website: None,
        html: Some(vec![
            Pattern::with_version("alpha-([0-9]+)", "$1"),
            Pattern::with_version("beta-([0-9]+)", "$1"),
        ]),
        scripts: None,
        headers: None,
        meta: None,
        cookies: None,
    };
    let mut page = empty_page();
    page.html = "alpha-1 beta-2".to_string();

    let result = analyzer.detect_technology(&tech, &page).expect("detected");
    assert_eq!(result.version, Some("1".to_string()));
    assert_eq!(result.confidence, 40);
}

#[test]
fn test_header_rule_name_is_matched_case_insensitively() {
    let analyzer = Analyzer::new();
    let tech = Technology {
        name: "Fixture".to_string(),
        category: "Test".to_string(),
        website: None,
        html: None,
        scripts: None,
        headers: Some(vec![(
            "Server".to_string(),
            Pattern::with_version("fixture/([0-9.]+)", "$1"),
        )]),
        meta: None,
        cookies: None,
    };
    let mut page = empty_page();
    page.headers = vec![("server".to_string(), "fixture/2.0".to_string())];

    let result = analyzer.detect_technology(&tech, &page).expect("detected");
    assert_eq!(result.version, Some("2.0".to_string()));
    assert_eq!(
        result.matched_patterns,
        vec!["Header: fixture/([0-9.]+)".to_string()]
    );
}

#[test]
fn test_script_rules_score_per_matching_url() {
    let analyzer = Analyzer::new();
    let tech = Technology {
        name: "Fixture".to_string(),
        category: "Test".to_string(),
        website: None,
        html: None,
        scripts: Some(vec![Pattern::with_version(r"lib-([0-9.]+)\.js", "$1")]),
        headers: None,
        meta: None,
        cookies: None,
    };
    let mut page = empty_page();
    page.scripts = vec![
        "https://cdn.test/lib-3.1.js".to_string(),
        "https://cdn.test/other.js".to_string(),
        "https://cdn.test/lib-4.0.js".to_string(),
    ];

    let result = analyzer.detect_technology(&tech, &page).expect("detected");
    assert_eq!(result.confidence, 50);
    assert_eq!(result.version, Some("3.1".to_string()));
    assert_eq!(result.matched_patterns.len(), 2);
}

#[test]
fn test_catalog_loads_every_signature() {
    let technologies = load_technologies();
    assert_eq!(
        technologies.len(),
        wappalyzer_rust::technologies::CATALOG_COUNT
    );
    assert!(technologies.iter().any(|t| t.name == "WordPress"));
}

#[test]
fn test_catalog_names_are_unique() {
    let technologies = load_technologies();
    for (i, a) in technologies.iter().enumerate() {
        for b in technologies.iter().skip(i + 1) {
            assert_ne!(a.name, b.name);
        }
    }
}
