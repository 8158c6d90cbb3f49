use komga_anilist::error::MetadataError;
use komga_anilist::markup::sanitize;
use komga_anilist::metadata::{
    assemble, build_manga_info, credit_payload, first_present, normalize, CoverImage,
    MediaRecord, OperatorChoices,
};
use komga_anilist::staff::{resolve_staff, staff_labels, StaffCredit};
use komga_anilist::status::{get_komga_status, AnilistStatus};
use komga_anilist::title::{
    resolve_title, search_label, title_decision, RawTitle, TitleChoice, TitleDecision,
};

fn s(x: &str) -> String {
    x.to_string()
}

fn raw(english: Option<&str>, romaji: Option<&str>) -> RawTitle {
    RawTitle { english: english.map(s), romaji: romaji.map(s) }
}

fn credit(name: &str, role: &str) -> StaffCredit {
    StaffCredit { name: s(name), role: s(role) }
}

fn no_cover() -> CoverImage {
    CoverImage { extra_large: None, large: None, medium: None }
}

fn record(title: RawTitle, staff: Vec<StaffCredit>) -> MediaRecord {
    MediaRecord {
        title,
        cover_image: no_cover(),
        description: None,
        status: AnilistStatus::Finished,
        genres: vec![],
        staff,
    }
}

#[test]
fn equal_titles_resolve_without_choice() {
    let t = raw(Some("Berserk"), Some("Berserk"));
    match title_decision(&t) {
        Ok(TitleDecision::Settled(v)) => assert_eq!(v, "Berserk"),
        other => panic!("unexpected {:?}", other),
    }
    assert_eq!(resolve_title(&t, TitleChoice::English).unwrap(), "Berserk");
    assert_eq!(resolve_title(&t, TitleChoice::Romanized).unwrap(), "Berserk");
}

#[test]
fn differing_titles_ask_in_english_then_romanized_order() {
    let t = raw(Some("Attack on Titan"), Some("Shingeki no Kyojin"));
    match title_decision(&t) {
        Ok(TitleDecision::Choose(a, b)) => {
            assert_eq!(a, "Attack on Titan");
            assert_eq!(b, "Shingeki no Kyojin");
        }
        other => panic!("unexpected {:?}", other),
    }
    assert_eq!(resolve_title(&t, TitleChoice::English).unwrap(), "Attack on Titan");
    assert_eq!(resolve_title(&t, TitleChoice::Romanized).unwrap(), "Shingeki no Kyojin");
}

#[test]
fn title_comparison_is_case_sensitive() {
    let t = raw(Some("berserk"), Some("Berserk"));
    assert!(matches!(title_decision(&t), Ok(TitleDecision::Choose(_, _))));
}

#[test]
fn single_title_variant_is_returned() {
    let e = raw(Some("Monster"), None);
    let r = raw(None, Some("Yotsuba to!"));
    assert_eq!(resolve_title(&e, TitleChoice::Romanized).unwrap(), "Monster");
    assert_eq!(resolve_title(&r, TitleChoice::English).unwrap(), "Yotsuba to!");
    assert!(matches!(title_decision(&e), Ok(TitleDecision::Settled(v)) if v == "Monster"));
}

#[test]
fn missing_titles_fail() {
    let t = raw(None, None);
    assert_eq!(resolve_title(&t, TitleChoice::English).unwrap_err(), MetadataError::NoTitleAvailable);
    assert_eq!(title_decision(&t).unwrap_err(), MetadataError::NoTitleAvailable);
    assert_eq!(MetadataError::NoTitleAvailable.message(), "No title available");
}

#[test]
fn search_labels() {
    assert_eq!(search_label(&raw(Some("A"), Some("B"))).unwrap(), "A / B");
    assert_eq!(search_label(&raw(Some("A"), None)).unwrap(), "A");
    assert_eq!(search_label(&raw(None, Some("B"))).unwrap(), "B");
    assert!(search_label(&raw(None, None)).is_none());
}

#[test]
fn status_mapping_is_fixed() {
    assert_eq!(get_komga_status(&AnilistStatus::Finished), "ENDED");
    assert_eq!(get_komga_status(&AnilistStatus::Releasing), "ONGOING");
    assert_eq!(get_komga_status(&AnilistStatus::NotYetReleased), "ONGOING");
    assert_eq!(get_komga_status(&AnilistStatus::Cancelled), "ABANDONED");
    assert_eq!(get_komga_status(&AnilistStatus::Hiatus), "HIATUS");
}

#[test]
fn sanitize_strips_plain_tags_only() {
    assert_eq!(sanitize(None), None);
    assert_eq!(sanitize(Some(s(""))), Some(s("")));
    assert_eq!(sanitize(Some(s("<b>Hello</b> World"))), Some(s("Hello World")));
    assert_eq!(sanitize(Some(s("<p>Dark tale</p>"))), Some(s("Dark tale")));
    assert_eq!(
        sanitize(Some(s("<a href=\"x\">link</a>"))),
        Some(s("<a href=\"x\">link"))
    );
    assert_eq!(sanitize(Some(s("a &amp; b<br>\n c"))), Some(s("a &amp; b\n c")));
}

#[test]
fn staff_labels_and_picks() {
    let staff = vec![credit("Jane Doe", "Story"), credit("John Roe", "Art")];
    assert_eq!(staff_labels(&staff), vec![s("Jane Doe - Story"), s("John Roe - Art")]);
    assert_eq!(resolve_staff(&staff, Some(1)), Some(s("John Roe")));
    assert_eq!(resolve_staff(&staff, None), None);
}

#[test]
fn skipped_artist_gives_writer_only() {
    let p = credit_payload(&Some(s("Jane Doe")), &None).unwrap();
    assert_eq!(p.entries.len(), 1);
    assert_eq!(p.entries[0].name, "Jane Doe");
    assert_eq!(p.entries[0].role, "writer");
}

#[test]
fn skipped_author_gives_penciller_only() {
    let p = credit_payload(&None, &Some(s("John Roe"))).unwrap();
    assert_eq!(p.entries.len(), 1);
    assert_eq!(p.entries[0].name, "John Roe");
    assert_eq!(p.entries[0].role, "penciller");
}

#[test]
fn both_skipped_gives_no_payload() {
    assert!(credit_payload(&None, &None).is_none());
    let rec = record(raw(Some("X"), None), vec![credit("Jane Doe", "Story")]);
    let choices = OperatorChoices { title: TitleChoice::English, author: None, artist: None };
    let (m, credits) = assemble(rec, choices).unwrap();
    assert!(credits.is_none());
    assert_eq!(m.author, None);
    assert_eq!(m.artist, None);
}

#[test]
fn genres_keep_their_order() {
    let mut rec = record(raw(Some("X"), None), vec![]);
    rec.genres = vec![s("Sports"), s("Action"), s("Sports"), s("Drama")];
    let choices = OperatorChoices { title: TitleChoice::English, author: None, artist: None };
    let (m, _) = assemble(rec, choices).unwrap();
    assert_eq!(m.genres, vec![s("Sports"), s("Action"), s("Sports"), s("Drama")]);
}

#[test]
fn cover_falls_back_in_order() {
    assert_eq!(first_present(&vec![None, Some(s("l")), Some(s("m"))]), Some(s("l")));
    assert_eq!(first_present(&vec![None, None]), None);
    let mut rec = record(raw(Some("X"), None), vec![]);
    rec.cover_image = CoverImage { extra_large: None, large: None, medium: Some(s("m.jpg")) };
    let choices = OperatorChoices { title: TitleChoice::English, author: None, artist: None };
    let info = build_manga_info(rec, choices).unwrap();
    assert_eq!(info.cover, Some(s("m.jpg")));
}

#[test]
fn missing_title_aborts_assembly() {
    let rec = record(raw(None, None), vec![]);
    let choices = OperatorChoices { title: TitleChoice::English, author: None, artist: None };
    assert_eq!(assemble(rec, choices).unwrap_err(), MetadataError::NoTitleAvailable);
}

#[test]
fn berserk_end_to_end() {
    let rec = MediaRecord {
        title: raw(Some("Berserk"), Some("Berserk")),
        cover_image: CoverImage { extra_large: Some(s("xl.jpg")), large: Some(s("l.jpg")), medium: None },
        description: Some(s("<p>Dark tale</p>")),
        status: AnilistStatus::Releasing,
        genres: vec![s("Action"), s("Fantasy")],
        staff: vec![credit("Kentaro Miura", "Story & Art")],
    };
    let choices = OperatorChoices { title: TitleChoice::Romanized, author: Some(0), artist: Some(0) };
    let (m, credits) = assemble(rec, choices).unwrap();
    assert_eq!(m.title, "Berserk");
    assert_eq!(m.status, "ONGOING");
    assert_eq!(m.genres, vec![s("Action"), s("Fantasy")]);
    assert_eq!(m.description, Some(s("Dark tale")));
    assert_eq!(m.author, Some(s("Kentaro Miura")));
    assert_eq!(m.artist, Some(s("Kentaro Miura")));
    let p = credits.unwrap();
    assert_eq!(p.entries.len(), 2);
    assert_eq!((p.entries[0].name.as_str(), p.entries[0].role.as_str()), ("Kentaro Miura", "writer"));
    assert_eq!((p.entries[1].name.as_str(), p.entries[1].role.as_str()), ("Kentaro Miura", "penciller"));
}

#[test]
fn normalize_maps_status_and_keeps_fields() {
    let rec = record(raw(Some("X"), None), vec![credit("A", "Art")]);
    let choices = OperatorChoices { title: TitleChoice::English, author: None, artist: Some(0) };
    let info = build_manga_info(rec, choices).unwrap();
    let (m, credits) = normalize(info);
    assert_eq!(m.status, "ENDED");
    assert_eq!(m.title, "X");
    assert_eq!(credits.unwrap().entries[0].role, "penciller");
}
