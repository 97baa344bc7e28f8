//! The cell normaliser, the best-effort parsers and the entity-key
//! extractors, exercised on concrete values.

use statharvest::crawl::{slug_key, team_key};
use statharvest::players::Position;
use statharvest::text::{
    jersey_number, last_segment, last_token, normalize_cell, parse_decimal, parse_u32, split_pair,
    str_eq, trim_str, Decimal,
};
use statharvest::HarvestError;

#[test]
fn normalizer_trims_and_collapses() {
    // newlines are removed outright, not replaced by spaces
    assert_eq!(normalize_cell("  NE  New\nEngland  Patriots "), "NE NewEngland Patriots");
    assert_eq!(normalize_cell(" NE  New England "), "NE New England");
    assert_eq!(normalize_cell("\n\t plain \t\n"), "plain");
    assert_eq!(normalize_cell(""), "");
    // one left-to-right pass: four spaces become two
    assert_eq!(normalize_cell("a    b"), "a  b");
    // the trimmed class is the Unicode white-space set, non-breaking
    // spaces included
    assert_eq!(normalize_cell("\u{a0}\u{2009}NE Patriots\u{a0}"), "NE Patriots");
}

#[test]
fn integer_parse_best_effort() {
    assert_eq!(parse_u32("345"), 345);
    assert_eq!(parse_u32("+7"), 7);
    assert_eq!(parse_u32("4294967295"), u32::MAX);
    // failures yield the zero default, never an error
    assert_eq!(parse_u32(""), 0);
    assert_eq!(parse_u32("12a"), 0);
    assert_eq!(parse_u32("-3"), 0);
    assert_eq!(parse_u32("4294967296"), 0);
    assert_eq!(parse_u32("99999999999999999999"), 0);
}

#[test]
fn decimal_parse_best_effort() {
    assert_eq!(parse_decimal("66.7"), Decimal { neg: false, milli: 66700 });
    assert_eq!(parse_decimal("0.25"), Decimal { neg: false, milli: 250 });
    assert_eq!(parse_decimal("-3.5"), Decimal { neg: true, milli: 3500 });
    assert_eq!(parse_decimal("12"), Decimal { neg: false, milli: 12000 });
    assert_eq!(parse_decimal("12."), Decimal { neg: false, milli: 12000 });
    assert_eq!(parse_decimal("+1.2345"), Decimal { neg: false, milli: 1234 });
    assert_eq!(parse_decimal("-0.0"), Decimal { neg: false, milli: 0 });
    // failures yield the zero default, never an error
    assert_eq!(parse_decimal(""), Decimal { neg: false, milli: 0 });
    assert_eq!(parse_decimal("abc"), Decimal { neg: false, milli: 0 });
    assert_eq!(parse_decimal(".5"), Decimal { neg: false, milli: 0 });
    assert_eq!(parse_decimal("1.2.3"), Decimal { neg: false, milli: 0 });
}

#[test]
fn composite_field_decode() {
    // the two delimiters the source tables use
    assert_eq!(split_pair("12/20", '/'), (12, 20));
    assert_eq!(split_pair("3_4", '_'), (3, 4));
    // a missing delimiter yields (0, 0)
    assert_eq!(split_pair("1220", '/'), (0, 0));
    // so does a second delimiter
    assert_eq!(split_pair("1/2/3", '/'), (0, 0));
    // each side defaults independently
    assert_eq!(split_pair("ab/12", '/'), (0, 12));
    assert_eq!(split_pair("12/", '/'), (12, 0));
}

#[test]
fn team_code_extraction() {
    assert_eq!(team_key("NE New England Patriots").as_deref(), Some("NE"));
    // a first cell without a space yields no key
    assert_eq!(team_key("Patriots"), None);
    assert_eq!(team_key(""), None);
}

#[test]
fn entity_slug_extraction() {
    assert_eq!(slug_key("/players/john-smith/"), "john-smith");
    assert_eq!(slug_key("/players/john-smith"), "john-smith");
    // without the known leading segment the path is kept, separators dropped
    assert_eq!(slug_key("/teams/john-smith/"), "/teams/john-smith");
    assert_eq!(slug_key("/players/"), "");
}

#[test]
fn position_abbreviations() {
    assert_eq!(Position::from("QB"), Ok(Position::QB));
    assert_eq!(Position::from("HB"), Ok(Position::RB));
    assert_eq!(Position::from("FB"), Ok(Position::RB));
    assert_eq!(Position::from("OLB"), Ok(Position::LB));
    assert_eq!(Position::from("SAF"), Ok(Position::S));
    assert_eq!(Position::from("XX"), Err(HarvestError::Malformed));
    assert_eq!(Position::from(""), Err(HarvestError::Malformed));
}

#[test]
fn header_text_helpers() {
    assert_eq!(trim_str("  QB  "), "QB");
    assert_eq!(last_segment("QB\n#12"), "#12");
    assert_eq!(last_segment("#12"), "#12");
    assert_eq!(last_token("New England Patriots"), "Patriots");
    assert_eq!(last_token("   "), "");
    assert_eq!(jersey_number("\u{2022}#12"), 12);
    assert_eq!(jersey_number("#7"), 7);
    assert_eq!(jersey_number("#300"), 255);
    assert_eq!(jersey_number("none"), 255);
    assert!(str_eq("abc", "abc"));
    assert!(!str_eq("abc", "abd"));
}
