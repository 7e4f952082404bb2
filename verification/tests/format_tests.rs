use saveit::config::FormatStandard;
use saveit::date::Date;
use saveit::format::FormatError;
use saveit::source::Source;
use saveit::format::format_all;

fn record(
    id: i64,
    title: &str,
    url: &str,
    author: &str,
    published: Date,
    viewed: Date,
    published_unknown: bool,
    comment: &str,
) -> Source {
    Source {
        id,
        title: String::from(title),
        url: String::from(url),
        author: String::from(author),
        published_date: published,
        viewed_date: viewed,
        published_date_unknown: published_unknown,
        comment: String::from(comment),
    }
}

fn d(y: u16, m: u8, day: u8) -> Date {
    Date::new(y, m, day)
}

#[test]
fn default_format_unknown_author_and_date() {
    // The exact Default rendering of a record with an empty author and an
    // unknown published date.
    let s = record(
        1,
        "Example",
        "https://example.com",
        "",
        d(2024, 1, 1),
        d(2024, 1, 1),
        true,
        "",
    );
    let out = s.format(&FormatStandard::Default, "").unwrap();
    assert_eq!(out, "[1] Unbekannt: Example URL: https://example.com [as of 01.01.2024]");
}

#[test]
fn default_format_with_author_and_year() {
    let s = record(
        7,
        "Paper",
        "https://host/x",
        "Smith",
        d(2020, 5, 15),
        d(2023, 12, 31),
        false,
        "",
    );
    let out = s.format(&FormatStandard::Default, "").unwrap();
    assert_eq!(out, "[7] Smith (2020): Paper URL: https://host/x [as of 31.12.2023]");
}

#[test]
fn default_format_contains_title_and_url() {
    let s = record(
        3,
        "A Title With Spaces",
        "https://example.org/path?q=1",
        "Doe",
        d(1999, 2, 3),
        d(2001, 4, 5),
        false,
        "note",
    );
    let out = s.format(&FormatStandard::Default, "").unwrap();
    assert!(out.contains("A Title With Spaces"));
    assert!(out.contains("https://example.org/path?q=1"));
}

#[test]
fn default_format_unknown_date_shows_no_year() {
    let s = record(
        2,
        "T",
        "u",
        "A",
        d(1987, 6, 7),
        d(2024, 2, 2),
        true,
        "",
    );
    let out = s.format(&FormatStandard::Default, "").unwrap();
    assert!(!out.contains("1987"));
    assert_eq!(out, "[2] A: T URL: u [as of 02.02.2024]");
}

#[test]
fn default_format_negative_id_sentinel() {
    let s = record(-1, "T", "u", "A", d(2000, 1, 1), d(2005, 11, 30), false, "");
    let out = s.format(&FormatStandard::Default, "").unwrap();
    assert_eq!(out, "[-1] A (2000): T URL: u [as of 30.11.2005]");
}

#[test]
fn custom_template_all_plain_tokens() {
    // The scenario template with plain tokens only.
    let s = record(
        4,
        "Example",
        "https://example.com",
        "Smith",
        d(2020, 3, 9),
        d(2022, 8, 1),
        false,
        "",
    );
    let out = s
        .format(&FormatStandard::Custom, "{AUTHOR} ({P_DATE}): {TITLE}, {URL}")
        .unwrap();
    assert_eq!(out, "Smith (2020): Example, https://example.com");
}

#[test]
fn custom_template_url_substituted_once() {
    let s = record(1, "T", "https://example.com", "A", d(2020, 1, 1), d(2020, 1, 1), false, "");
    let out = s.format(&FormatStandard::Custom, "see {URL} here").unwrap();
    assert_eq!(out, "see https://example.com here");
}

#[test]
fn custom_template_index_and_comment() {
    let s = record(42, "T", "u", "A", d(2020, 1, 1), d(2020, 1, 1), false, "remark");
    let out = s.format(&FormatStandard::Custom, "{INDEX}: {COMMENT}").unwrap();
    assert_eq!(out, "42: remark");
}

#[test]
fn custom_template_author_placeholder_for_empty_author() {
    let s = record(1, "T", "u", "", d(2020, 1, 1), d(2020, 1, 1), false, "");
    let out = s.format(&FormatStandard::Custom, "by {AUTHOR}").unwrap();
    assert_eq!(out, "by Unbekannt");
}

#[test]
fn custom_template_pdate_pattern_exact() {
    // The embedded pattern wins over every default.
    let s = record(1, "T", "u", "A", d(2021, 7, 4), d(2024, 1, 1), false, "");
    let out = s
        .format(&FormatStandard::Custom, "{P_DATE(%m/%d/%Y)}")
        .unwrap();
    assert_eq!(out, "07/04/2021");
}

#[test]
fn custom_template_vdate_pattern_and_fallbacks() {
    let s = record(1, "T", "u", "A", d(2021, 7, 4), d(2023, 9, 8), false, "");
    let out = s.format(&FormatStandard::Custom, "{V_DATE(%Y-%m-%d)}").unwrap();
    assert_eq!(out, "2023-09-08");
    // An empty embedded pattern falls back: year-only for P_DATE,
    // day.month.year for V_DATE.
    let out = s.format(&FormatStandard::Custom, "{P_DATE()} {V_DATE()}").unwrap();
    assert_eq!(out, "2021 08.09.2023");
    // The plain date tokens use the same fallbacks.
    let out = s.format(&FormatStandard::Custom, "{P_DATE} {V_DATE}").unwrap();
    assert_eq!(out, "2021 08.09.2023");
}

#[test]
fn custom_template_each_occurrence_keeps_its_own_pattern() {
    // Two parenthesized tokens in one template resolve independently, each
    // under its own embedded pattern.
    let s = record(1, "T", "u", "A", d(2021, 7, 4), d(2024, 1, 1), false, "");
    let out = s
        .format(&FormatStandard::Custom, "{P_DATE(%Y)} vs {P_DATE(%d.%m.)}")
        .unwrap();
    assert_eq!(out, "2021 vs 04.07.");
}

#[test]
fn date_components_are_zero_padded() {
    let s = record(1, "T", "u", "A", d(5, 1, 2), d(987, 3, 4), false, "");
    let out = s
        .format(&FormatStandard::Custom, "{P_DATE(%Y-%m-%d)} {V_DATE(%Y)}")
        .unwrap();
    assert_eq!(out, "0005-01-02 0987");
}

#[test]
fn custom_template_two_digit_year_and_percent() {
    let s = record(1, "T", "u", "A", d(2007, 1, 2), d(2023, 9, 8), false, "");
    let out = s.format(&FormatStandard::Custom, "{P_DATE(%y: 100%%)}").unwrap();
    assert_eq!(out, "07: 100%");
}

#[test]
fn custom_template_unknown_pattern_chars_kept() {
    let s = record(1, "T", "u", "A", d(2020, 1, 1), d(2023, 9, 8), false, "");
    // An unrecognized specifier and a trailing percent stay verbatim.
    let out = s.format(&FormatStandard::Custom, "{V_DATE(%q%d%)}").unwrap();
    assert_eq!(out, "%q08%");
}

#[test]
fn custom_template_malformed_tokens_left_verbatim() {
    let s = record(5, "T", "u", "A", d(2020, 1, 1), d(2020, 1, 1), false, "");
    let out = s.format(&FormatStandard::Custom, "{FOO} {P_DATE(%Y} {TITLE").unwrap();
    assert_eq!(out, "{FOO} {P_DATE(%Y} {TITLE");
    let out = s.format(&FormatStandard::Custom, "{{INDEX}").unwrap();
    assert_eq!(out, "{5");
}

#[test]
fn custom_template_empty_template() {
    let s = record(5, "T", "u", "A", d(2020, 1, 1), d(2020, 1, 1), false, "");
    let out = s.format(&FormatStandard::Custom, "").unwrap();
    assert_eq!(out, "");
}

#[test]
fn custom_template_substituted_text_not_rescanned() {
    // A substituted value that itself looks like a token must stay as it
    // is: substitution happens in a single pass.
    let s = record(1, "{URL}", "https://example.com", "A", d(2020, 1, 1), d(2020, 1, 1), false, "");
    let out = s.format(&FormatStandard::Custom, "{TITLE}").unwrap();
    assert_eq!(out, "{URL}");
}

#[test]
fn unsupported_standards_give_distinct_error() {
    let s = record(1, "T", "u", "A", d(2020, 1, 1), d(2020, 1, 1), false, "");
    let e = s.format(&FormatStandard::Ieee, "").unwrap_err();
    assert_eq!(e, FormatError::UnsupportedStandard(FormatStandard::Ieee));
    let e = s.format(&FormatStandard::Apa, "").unwrap_err();
    assert_eq!(e, FormatError::UnsupportedStandard(FormatStandard::Apa));
}

#[test]
fn format_all_joins_with_line_breaks() {
    let a = record(1, "T1", "u1", "A", d(2020, 1, 1), d(2020, 1, 1), true, "");
    let b = record(2, "T2", "u2", "B", d(2021, 1, 1), d(2021, 2, 3), true, "");
    let list = vec![a, b];
    let out = format_all(&list, &FormatStandard::Custom, "{TITLE}/{AUTHOR}").unwrap();
    assert_eq!(out, "T1/A\nT2/B\n");
    let empty: Vec<Source> = Vec::new();
    let out = format_all(&empty, &FormatStandard::Default, "").unwrap();
    assert_eq!(out, "");
    let e = format_all(&list, &FormatStandard::Apa, "").unwrap_err();
    assert_eq!(e, FormatError::UnsupportedStandard(FormatStandard::Apa));
}
