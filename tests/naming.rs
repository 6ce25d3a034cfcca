use scalar_surreal::naming::{is_valid_identifier, table_names, NamingError};

#[test]
fn table_names_of_identifier() {
    let t = table_names("article").ok().unwrap();
    assert_eq!(t.published, "article");
    assert_eq!(t.draft, "article_draft");
    assert_eq!(t.meta, "article_meta");
}

#[test]
fn identifiers_accepted() {
    assert!(is_valid_identifier("a"));
    assert!(is_valid_identifier("_x9"));
    assert!(is_valid_identifier("Blog_Post2"));
}

#[test]
fn identifiers_rejected() {
    assert!(!is_valid_identifier(""));
    assert!(!is_valid_identifier("9lives"));
    assert!(!is_valid_identifier("mcdonalds sprite"));
    assert!(!is_valid_identifier("x; DELETE y"));
    assert!(!is_valid_identifier("caf\u{e9}"));
    assert!(matches!(table_names("a-b"), Err(NamingError::InvalidIdentifier)));
}
