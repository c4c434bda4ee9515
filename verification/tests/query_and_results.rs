use search_cli::query::{request_params, SearchQuery};
use search_cli::results::{map_results, RawSearchItem};

fn names(params: &[(String, String)]) -> Vec<&str> {
    params.iter().map(|p| p.0.as_str()).collect()
}

#[test]
fn params_always_carry_key_cx_and_q() {
    let q = SearchQuery::build("rust programming".to_string(), None, None);
    let params = request_params(&q, &"api-key-1".to_string(), &"engine-1".to_string());
    assert_eq!(
        params,
        vec![
            ("key".to_string(), "api-key-1".to_string()),
            ("cx".to_string(), "engine-1".to_string()),
            ("q".to_string(), "rust programming".to_string()),
        ]
    );
}

#[test]
fn filetype_restriction_becomes_file_type_param() {
    let q = SearchQuery::build("report".to_string(), Some("pdf".to_string()), None);
    let params = request_params(&q, &"k".to_string(), &"c".to_string());
    assert!(params.contains(&("fileType".to_string(), "pdf".to_string())));
    assert!(!names(&params).contains(&"siteSearch"));
}

#[test]
fn domain_restriction_becomes_site_search_param() {
    let q = SearchQuery::build("report".to_string(), None, Some("example.org".to_string()));
    let params = request_params(&q, &"k".to_string(), &"c".to_string());
    assert!(params.contains(&("siteSearch".to_string(), "example.org".to_string())));
    assert!(!names(&params).contains(&"fileType"));
}

#[test]
fn both_restrictions_are_appended_in_order() {
    let q = SearchQuery::build(
        "report".to_string(),
        Some("pdf".to_string()),
        Some("example.org".to_string()),
    );
    let params = request_params(&q, &"k".to_string(), &"c".to_string());
    assert_eq!(
        names(&params),
        vec!["key", "cx", "q", "fileType", "siteSearch"]
    );
}

#[test]
fn mapping_preserves_order_count_and_fields() {
    let items = vec![
        RawSearchItem {
            title: "First".to_string(),
            link: "https://example.org/a".to_string(),
            snippet: "the first hit".to_string(),
        },
        RawSearchItem {
            title: "Second".to_string(),
            link: "https://example.org/b".to_string(),
            snippet: "the second hit".to_string(),
        },
    ];
    let results = map_results(&items);
    assert_eq!(results.len(), items.len());
    for (i, r) in results.iter().enumerate() {
        assert_eq!(r.title, items[i].title);
        assert_eq!(r.link, items[i].link);
        assert_eq!(r.description, items[i].snippet);
    }
}

#[test]
fn mapping_empty_input_gives_empty_output() {
    let results = map_results(&Vec::new());
    assert!(results.is_empty());
}
