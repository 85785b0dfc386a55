use dom_content_extraction::scraper::Html;
use pageinfo_rs::html::PageInfo;

const PAGE: &str = "<!DOCTYPE html><html lang=\"en\" class=\"no-js\"><head>\
<title>Sample <b>page</b></title>\
<meta charset=\"utf-8\"><meta name=\"description\" content=\"A test\">\
</head><body><p>text</p></body></html>";

#[test]
fn page_info_is_shown_as_lines() {
    let page = Html::parse_document(PAGE);
    let info = PageInfo::new(&page);
    let text = info.to_string();
    let expected = "Title: Sample &lt;b&gt;page&lt;/b&gt;\nMeta tags:\n\
Meta tag 1:\n  charset: utf-8\n\
Meta tag 2:\n  content: A test\n  name: description\n\
\nHTML tag attributes:\n  class: no-js\n  lang: en\n";
    assert_eq!(text, expected);
}

#[test]
fn page_without_title_or_meta() {
    let page = Html::parse_document("<html><body>plain</body></html>");
    let info = PageInfo::new(&page);
    assert_eq!(info.to_string(), "Title: \nMeta tags:\n\nHTML tag attributes:\n");
}

#[test]
fn meta_tags_are_read_in_document_order() {
    let page = Html::parse_document(PAGE);
    let meta = PageInfo::extract_meta_tags(&page);
    assert_eq!(meta.len(), 2);
    assert_eq!(meta[0].len(), 1);
    assert_eq!(meta[0].get("charset"), Some(&"utf-8".to_string()));
    assert_eq!(meta[1].len(), 2);
    assert_eq!(meta[1].get("name"), Some(&"description".to_string()));
    assert_eq!(meta[1].get("content"), Some(&"A test".to_string()));
    assert_eq!(meta[1].get("charset"), None);
}

#[test]
fn first_title_is_taken() {
    let titles = vec![
        ("first".to_string(), Vec::new()),
        ("second".to_string(), Vec::new()),
    ];
    assert_eq!(PageInfo::title_among(&titles), Some("first".to_string()));
    assert_eq!(PageInfo::title_among(&Vec::new()), None);
}

#[test]
fn attributes_of_found_elements_are_stored() {
    let elements = vec![
        (String::new(), vec![("a".to_string(), "1".to_string()), ("b".to_string(), "2".to_string())]),
        (String::new(), Vec::new()),
    ];
    let maps = PageInfo::meta_among(&elements);
    assert_eq!(maps.len(), 2);
    assert_eq!(maps[0].get("a"), Some(&"1".to_string()));
    assert_eq!(maps[0].get("b"), Some(&"2".to_string()));
    assert!(maps[1].is_empty());
    let root = PageInfo::root_attrs_among(&elements);
    assert_eq!(root.len(), 2);
    assert_eq!(root.key_at(0), "a");
    assert!(PageInfo::root_attrs_among(&Vec::new()).is_empty());
}

#[test]
fn document_without_root_element_has_no_root_attributes() {
    let page = Html::new_document();
    let info = PageInfo::new(&page);
    assert_eq!(info.to_string(), "Title: \nMeta tags:\n\nHTML tag attributes:\n");
}
