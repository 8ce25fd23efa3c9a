use relay_nav::listing::{parse_cities, parse_countries};
use relay_nav::text::{
    chars_of, contains, extend, fold_case, lines, shorten, split_lines, string_of, trim,
};

const LISTING: &str =
    "Sweden (se)\n\tStockholm (se-sto)\n\tMalmo (se-mma)\nGermany (de)\n\tBerlin (de-ber)\n";

fn chars(s: &str) -> Vec<char> {
    s.chars().collect()
}

#[test]
fn chars_of_keeps_order() {
    assert_eq!(chars_of("ab("), vec!['a', 'b', '(']);
    assert_eq!(chars_of(""), Vec::<char>::new());
    assert_eq!(chars_of("å\t"), vec!['å', '\t']);
}

#[test]
fn string_of_takes_the_range() {
    let v = chars("hello");
    assert_eq!(string_of(&v, 1, 4), "ell");
    assert_eq!(string_of(&v, 0, 5), "hello");
    assert_eq!(string_of(&v, 2, 2), "");
}

#[test]
fn fold_case_lowers_letters() {
    assert_eq!(fold_case("Sweden (SE)"), chars("sweden (se)"));
    assert_eq!(fold_case("ÅLAND"), chars("åland"));
}

#[test]
fn contains_finds_parts() {
    assert!(contains(&chars("sweden"), &chars("de")));
    assert!(contains(&chars("sweden"), &chars("sweden")));
    assert!(contains(&chars("sweden"), &chars("")));
    assert!(contains(&chars(""), &chars("")));
    assert!(contains(&chars("sweden"), &chars("en")));
    assert!(!contains(&chars("sweden"), &chars("dn")));
    assert!(!contains(&chars("de"), &chars("sweden")));
    assert!(!contains(&chars(""), &chars("a")));
}

#[test]
fn trim_strips_both_ends() {
    assert_eq!(trim(&chars("\tStockholm (se-sto) \r")), "Stockholm (se-sto)");
    assert_eq!(trim(&chars("  \t ")), "");
    assert_eq!(trim(&chars("")), "");
    assert_eq!(trim(&chars("a b")), "a b");
    assert_eq!(trim(&chars("\u{a0}\u{3000}x\u{2003}\u{85}")), "x");
    assert_eq!(trim(&chars("\u{200b}x")), "\u{200b}x");
}

#[test]
fn split_lines_cuts_at_line_feeds() {
    let got = split_lines(&chars("a\nb\r\n\nc"));
    assert_eq!(got, vec![chars("a"), chars("b"), chars(""), chars("c")]);
    assert_eq!(split_lines(&chars("a\n")), vec![chars("a")]);
    assert_eq!(split_lines(&chars("")), Vec::<Vec<char>>::new());
    assert_eq!(split_lines(&chars("\n")), vec![chars("")]);
    assert_eq!(split_lines(&chars("a\r\nb\r")), vec![chars("a"), chars("b\r")]);
    assert_eq!(split_lines(&chars("a\r\r\n")), vec![chars("a\r")]);
}

#[test]
fn lines_are_strings() {
    assert_eq!(lines("one\ntwo\n"), vec!["one".to_string(), "two".to_string()]);
}

#[test]
fn listing_yields_countries() {
    assert_eq!(
        parse_countries(LISTING),
        vec!["Sweden (se)".to_string(), "Germany (de)".to_string()]
    );
}

#[test]
fn listing_yields_cities_of_selected_country() {
    assert_eq!(
        parse_cities(LISTING, "Sweden (se)"),
        vec!["Stockholm (se-sto)".to_string(), "Malmo (se-mma)".to_string()]
    );
    assert_eq!(parse_cities(LISTING, "Germany (de)"), vec!["Berlin (de-ber)".to_string()]);
}

#[test]
fn other_line_shapes_are_skipped() {
    let text = "header\n\nSweden (se) \n\tno brackets\n\tMalmo (se-mma)\n\t\tse-mma-001 (1.2.3.4)\nnote\n\tStray (xx)\n";
    assert_eq!(parse_countries(text), vec!["Sweden (se)".to_string()]);
    assert_eq!(
        parse_cities(text, "Sweden (se)"),
        vec!["Malmo (se-mma)".to_string(), "se-mma-001 (1.2.3.4)".to_string()]
    );
}

#[test]
fn unknown_country_has_no_cities() {
    assert_eq!(parse_cities(LISTING, "Norway (no)"), Vec::<String>::new());
    assert_eq!(parse_cities("", "Sweden (se)"), Vec::<String>::new());
    assert_eq!(parse_cities("Sweden (se)", "Sweden (se)"), Vec::<String>::new());
}

#[test]
fn empty_listing_has_no_countries() {
    assert_eq!(parse_countries(""), Vec::<String>::new());
    assert_eq!(parse_countries("\tStockholm (se-sto)\nplain\n"), Vec::<String>::new());
}

#[test]
fn extend_and_shorten_edit_the_end() {
    assert_eq!(extend("", 'a'), "a");
    assert_eq!(extend("sw", 'e'), "swe");
    assert_eq!(shorten("swe"), "sw");
    assert_eq!(shorten("å"), "");
    assert_eq!(shorten(""), "");
}
