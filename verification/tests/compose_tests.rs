use elmfmt::FormatterConfig;
use elmfmt::IfStyle;
use elmfmt::TupleStyle;
use elmfmt::compose::build_query;
use elmfmt::text::replace_token;

fn chars(s: &str) -> Vec<char> {
    s.chars().collect()
}

fn text(v: &[char]) -> String {
    v.iter().collect()
}

#[test]
fn replace_token_substitutes_every_occurrence() {
    let out = replace_token(&chars("a__X__b__X__c"), &chars("__X__"), &chars("-"));
    assert_eq!(text(&out), "a-b-c");
}

#[test]
fn replace_token_with_empty_replacement_deletes() {
    let out = replace_token(&chars("a__X__b"), &chars("__X__"), &chars(""));
    assert_eq!(text(&out), "ab");
}

#[test]
fn replace_token_scans_left_to_right() {
    // Overlapping candidates are consumed from the left.
    let out = replace_token(&chars("aaa"), &chars("aa"), &chars("b"));
    assert_eq!(text(&out), "ba");
}

#[test]
fn replace_token_leaves_text_without_the_token_alone() {
    let out = replace_token(&chars("plain text"), &chars("__X__"), &chars("y"));
    assert_eq!(text(&out), "plain text");
}

/// Every combination of the two style choices composes without error and
/// selects exactly one fragment per choice.
#[test]
fn every_style_combination_composes() {
    let combos = [
        (IfStyle::Indented, TupleStyle::Compact),
        (IfStyle::Indented, TupleStyle::Spaced),
        (IfStyle::Hanging, TupleStyle::Compact),
        (IfStyle::Hanging, TupleStyle::Spaced),
    ];
    for (if_style, tuple_style) in combos {
        let mut c = FormatterConfig::new();
        c.set_if_style(if_style);
        c.set_tuple_style(tuple_style);
        let doc = build_query(&c);
        match if_style {
            IfStyle::Indented => {
                assert!(doc.contains("Indented if-style"));
                assert!(!doc.contains("Hanging if-style"));
            }
            IfStyle::Hanging => {
                assert!(doc.contains("Hanging if-style"));
                assert!(!doc.contains("Indented if-style"));
            }
        }
        match tuple_style {
            TupleStyle::Compact => {
                assert!(doc.contains("Compact tuple style"));
                assert!(!doc.contains("Spaced tuple style"));
            }
            TupleStyle::Spaced => {
                assert!(doc.contains("Spaced tuple style"));
                assert!(!doc.contains("Compact tuple style"));
            }
        }
    }
}

#[test]
fn composed_document_has_no_unresolved_placeholder() {
    for n in [0u8, 1, 2, 9] {
        let mut c = FormatterConfig::new();
        c.set_newlines_between_decls(n);
        let doc = build_query(&c);
        assert!(!doc.contains("__DECL_DELIMITER__"));
        assert!(!doc.contains("__SECTION_COMMENT_DELIMITER__"));
    }
}

#[test]
fn composed_document_carries_the_configured_delimiters() {
    let mut c = FormatterConfig::new();
    c.set_newlines_between_decls(2);
    let doc = build_query(&c);
    // The declaration separator: two blank lines plus the line-ending break.
    assert!(doc.contains("(#delimiter! \"\\n\\n\\n\")"));
    // The section-comment separator: one unit shorter.
    assert!(doc.contains("(#delimiter! \"\\n\\n\")"));

    let mut c0 = FormatterConfig::new();
    c0.set_newlines_between_decls(0);
    let doc0 = build_query(&c0);
    assert!(doc0.contains("(#delimiter! \"\\n\")"));
    assert!(doc0.contains("(#delimiter! \"\")"));
}

#[test]
fn composition_keeps_the_fixed_order() {
    let c = FormatterConfig::new();
    let doc = build_query(&c);
    let base = doc.find("Rules shared by every style").unwrap();
    let iff = doc.find("if-style").unwrap();
    let tup = doc.find("tuple style").unwrap();
    assert!(base < iff && iff < tup);
}
