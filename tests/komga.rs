use komga_anilist::komga::{
    book_metadata_slug, first_book_id, series_books_slug, series_metadata_slug, single_library,
    KomgaConfig, KomgaEntry,
};

fn entry(id: &str, name: &str) -> KomgaEntry {
    KomgaEntry { id: id.to_string(), name: name.to_string() }
}

#[test]
fn one_library_is_taken_without_asking() {
    assert_eq!(single_library(&vec![entry("L1", "Manga")]), Some("L1".to_string()));
    assert_eq!(single_library(&vec![entry("L1", "Manga"), entry("L2", "Comics")]), None);
    assert_eq!(single_library(&vec![]), None);
}

#[test]
fn first_book_of_listing() {
    assert_eq!(first_book_id(&vec![entry("B1", "Vol 1"), entry("B2", "Vol 2")]), Some("B1".to_string()));
    assert_eq!(first_book_id(&vec![]), None);
    assert_eq!(entry("B1", "Vol 1").label(), "Vol 1");
}

#[test]
fn config_default_is_incomplete() {
    let cfg = KomgaConfig::default();
    assert!(!cfg.is_complete());
    assert_eq!(cfg.auth_password(), None);
    let full = KomgaConfig {
        url: "http://host".to_string(),
        email: "me@example.org".to_string(),
        password: "pw".to_string(),
    };
    assert!(full.is_complete());
    assert_eq!(full.auth_password(), Some("pw".to_string()));
    assert_eq!(full.api_url("libraries"), "http://host/api/v1/libraries");
}

#[test]
fn endpoint_paths() {
    assert_eq!(series_metadata_slug("S1"), "series/S1/metadata");
    assert_eq!(series_books_slug("S1"), "series/S1/books");
    assert_eq!(book_metadata_slug("B1"), "books/B1/metadata");
}
