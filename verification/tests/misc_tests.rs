use saveit::config::{resolve_config_load, Config, ConfigError, ConfigLoadOutcome, FormatStandard};
use saveit::date::Date;
use saveit::source::Source;
use saveit::store::db_file_name;

fn record(title: &str, url: &str, author: &str) -> Source {
    Source {
        id: 1,
        title: String::from(title),
        url: String::from(url),
        author: String::from(author),
        published_date: Date::new(2020, 6, 15),
        viewed_date: Date::new(2024, 3, 2),
        published_date_unknown: false,
        comment: String::new(),
    }
}

#[test]
fn contains_is_case_insensitive() {
    // Exercises the lowercase mapping: with case left unchanged, none of
    // these mixed-case queries would match.
    let s = record("An Example Title", "https://Example.COM/page", "Ada Lovelace");
    assert!(s.contains("example title"));
    assert!(s.contains("EXAMPLE.com"));
    assert!(s.contains("ada LOVELACE"));
    assert!(s.contains(""));
    assert!(!s.contains("absent"));
}

#[test]
fn contains_searches_title_url_and_author_only() {
    let mut s = record("title", "url", "author");
    s.comment = String::from("hidden words");
    assert!(!s.contains("hidden"));
    assert!(s.contains("titl"));
    assert!(s.contains("uthor"));
}

#[test]
fn source_default_is_blank_and_unsaved() {
    let s = Source::default();
    assert_eq!(s.id, -1);
    assert_eq!(s.title, "");
    assert_eq!(s.url, "");
    assert_eq!(s.author, "");
    assert_eq!(s.comment, "");
    assert!(!s.published_date_unknown);
    assert!(s.published_date.month >= 1 && s.published_date.month <= 12);
    assert!(s.published_date.day >= 1 && s.published_date.day <= 31);
}

#[test]
fn date_clamped_keeps_valid_values_and_clamps_others() {
    let d = Date::clamped(2024, 2, 29);
    assert_eq!((d.year, d.month, d.day), (2024, 2, 29));
    let d = Date::clamped(-5, 0, 99);
    assert_eq!((d.year, d.month, d.day), (0, 1, 31));
    let d = Date::clamped(100000, 13, 0);
    assert_eq!((d.year, d.month, d.day), (9999, 12, 1));
}

#[test]
fn config_default_values() {
    let c = Config::default();
    assert_eq!(c.ui_lang, "en");
    assert_eq!(c.source_lang, "en");
    assert_eq!(c.format_standard, FormatStandard::Default);
    assert_eq!(c.custom_format, "{AUTHOR}: {TITLE}, {URL}");
}

#[test]
fn config_load_resolution() {
    let mut loaded = Config::default();
    loaded.custom_format = String::from("{URL}");
    loaded.format_standard = FormatStandard::Custom;
    let (c, store_back) = resolve_config_load(ConfigLoadOutcome::Loaded(loaded)).unwrap();
    assert_eq!(c.custom_format, "{URL}");
    assert_eq!(c.format_standard, FormatStandard::Custom);
    assert!(!store_back);

    let (c, store_back) = resolve_config_load(ConfigLoadOutcome::BadData).unwrap();
    assert_eq!(c.custom_format, "{AUTHOR}: {TITLE}, {URL}");
    assert_eq!(c.format_standard, FormatStandard::Default);
    assert!(store_back);

    let e = resolve_config_load(ConfigLoadOutcome::Failed).unwrap_err();
    assert_eq!(e, ConfigError::LoadFailure);
}

#[test]
fn records_compare_by_fields() {
    let a = record("t", "u", "x");
    let mut b = record("t", "u", "x");
    assert!(a.eq_fields(&b));
    assert!(a.eq_fields_except_id(&b));
    b.id = 2;
    assert!(!a.eq_fields(&b));
    assert!(a.eq_fields_except_id(&b));
    b.title = String::from("other");
    assert!(!a.eq_fields_except_id(&b));
}

#[test]
fn default_dates_are_the_current_local_date() {
    // Cross-checks the clock against chrono directly; the window guards
    // against the date changing mid-test.
    let before = chrono::Local::now().date_naive();
    let s = Source::default();
    let after = chrono::Local::now().date_naive();
    for d in [s.published_date, s.viewed_date] {
        let matches_day = |n: chrono::NaiveDate| {
            chrono::Datelike::year(&n) == d.year as i32
                && chrono::Datelike::month(&n) == d.month as u32
                && chrono::Datelike::day(&n) == d.day as u32
        };
        assert!(matches_day(before) || matches_day(after));
    }
}

#[test]
fn database_file_name_uses_version_prefix() {
    assert_eq!(db_file_name("1.4.2"), "sources-1.4.db");
    assert_eq!(db_file_name("0.1"), "sources-0.1.db");
}
