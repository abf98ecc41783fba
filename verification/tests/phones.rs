use cio::phone::{
    country_guesses, infer_country, infer_from_rules, normalize_phone, strip_phone, CountryGuess,
};
use cio::text::chars_of;

#[test]
fn london_number() {
    let p = normalize_phone("+44 20 7946 0958", "London, UK");
    assert_eq!(p.country_code, "gb");
    assert_eq!(p.phone, "+44 20 7946 0958");
    assert!(p.was_read);
    assert!(p.is_valid);
}

#[test]
fn us_number_by_default() {
    let p = normalize_phone("(650) 253-0000", "Mountain View, CA");
    assert_eq!(p.country_code, "us");
    assert_eq!(p.phone, "+1 650-253-0000");
    assert!(p.is_valid);
}

#[test]
fn invalid_number_is_kept_and_flagged() {
    let p = normalize_phone("555-123-4567", "Somewhere");
    assert_eq!(p.country_code, "us");
    assert_eq!(p.phone, "+1 555-123-4567");
    assert!(p.was_read);
    assert!(!p.is_valid);
}

#[test]
fn unreadable_number_stays_as_stripped() {
    let p = normalize_phone(" (1) 2 ", "Paris, France");
    assert_eq!(p.phone, "12");
    assert_eq!(p.country_code, "us");
    assert!(!p.was_read);
    assert!(!p.is_valid);
    let q = normalize_phone("", "Brazil");
    assert_eq!(q.phone, "");
    assert_eq!(q.country_code, "br");
    assert!(!q.is_valid);
}

#[test]
fn stripping_takes_out_the_formatting() {
    assert_eq!(strip_phone("  +1 (415) 555-2671 "), "14155552671");
    assert_eq!(strip_phone("+44 20 7946 0958"), "442079460958");
    assert_eq!(strip_phone("ext. 12"), "ext.12");
    assert_eq!(strip_phone(""), "");
}

#[test]
fn prefix_is_required_where_the_rule_has_one() {
    assert_eq!(infer_country("London", "442079460958"), "gb");
    assert_eq!(infer_country("London", "2079460958"), "us");
    assert_eq!(infer_country("Prague, Czech Republic", "420123456789"), "cz");
    assert_eq!(infer_country("Prague", "123456789"), "us");
    assert_eq!(infer_country("Sao Paulo, Brazil", "5511999999999"), "br");
    assert_eq!(infer_country("Brazil", ""), "br");
    assert_eq!(infer_country("Cotonou, Benin", "22912345678"), "bj");
    assert_eq!(infer_country("Cotonou, Benin", "12345678"), "us");
}

#[test]
fn earlier_rule_wins_over_later_ones() {
    // Both Belgium and Brazil are named; Brazil stands earlier in the list.
    assert_eq!(infer_country("Belgium, formerly Brazil", "32470123456"), "br");
    // India asks for its prefix and stands before Germany.
    assert_eq!(infer_country("Berlin / Mumbai", "919876543210"), "in");
    assert_eq!(infer_country("Berlin / Mumbai", "4915112345678"), "de");
    // Austria is found in "australia" only by its own keyword.
    assert_eq!(infer_country("Sydney, Australia", "61412345678"), "au");
    assert_eq!(infer_country("Vienna, Austria", "43123456"), "at");
}

#[test]
fn location_is_matched_in_lowercase() {
    assert_eq!(infer_country("TAIWAN", "886912345678"), "tw");
    assert_eq!(infer_country("New Zealand", "64211234567"), "nz");
}

#[test]
fn the_rule_list_is_the_documented_one() {
    let table = country_guesses();
    assert_eq!(table.len(), 24);
    assert_eq!(table[0].country_code, "gb");
    assert_eq!(table[0].keywords, vec!["uk", "london", "ipswich", "united kingdom", "england"]);
    assert_eq!(table[0].prefix, "44");
    assert_eq!(table[23].country_code, "es");
    assert_eq!(table[23].prefix, "");
}

#[test]
fn custom_rules_first_match_wins() {
    let rules = vec![
        CountryGuess { country_code: "aa".into(), keywords: vec!["x".into()], prefix: "9".into() },
        CountryGuess { country_code: "bb".into(), keywords: vec!["y".into(), "x".into()], prefix: "".into() },
        CountryGuess { country_code: "cc".into(), keywords: vec!["x".into()], prefix: "".into() },
    ];
    assert_eq!(infer_from_rules(&rules, &chars_of("x"), &chars_of("91")), "aa");
    assert_eq!(infer_from_rules(&rules, &chars_of("x"), &chars_of("19")), "bb");
    assert_eq!(infer_from_rules(&rules, &chars_of("z"), &chars_of("91")), "us");
    assert_eq!(infer_from_rules(&Vec::new(), &chars_of("x"), &chars_of("91")), "us");
}

#[test]
fn odd_numbers_are_taken_in_stride() {
    let long = "9".repeat(60);
    for raw in [
        "abc",
        "+",
        "()",
        "0",
        "000000000000",
        "tel:+1-201-555-0123;ext=55",
        ";phone-context=",
        "+dwPAA;phone-context=AA",
        "\u{661}\u{662}\u{663}\u{664}\u{665}\u{666}\u{667}\u{668}\u{669}\u{660}",
        "1 800 FLOWERS",
        "12345678901234567",
        long.as_str(),
        "x\u{0}y",
    ] {
        for location in ["", "London", "Berlin", "Taiwan", "Nairobi, Kenya"] {
            let p = normalize_phone(raw, location);
            assert_eq!(p.country_code.len(), 2);
            assert!(!p.is_valid || p.was_read);
            assert!(!p.was_read || p.phone.starts_with('+'));
            assert!(p.was_read || p.phone == cio::phone::strip_phone(raw));
        }
    }
}
