use elmfmt::ConfigError;
use elmfmt::FormatterConfig;
use elmfmt::IfStyle;
use elmfmt::TupleStyle;
use elmfmt::config::parse_config_document;
use elmfmt::config::resolve_config;

#[test]
fn full_document_overrides_every_default() {
    let doc = "indentation: 4\nif-style: hanging\ntuple-style: compact\nnewlines-between-decls: 1\n";
    let c = parse_config_document(doc).unwrap();
    assert_eq!(c.indentation, 4);
    assert_eq!(c.if_style, IfStyle::Hanging);
    assert_eq!(c.tuple_style, TupleStyle::Compact);
    assert_eq!(c.newlines_between_decls, 1);
}

#[test]
fn partial_document_merges_over_defaults() {
    let c = parse_config_document("indentation: 4\n").unwrap();
    assert_eq!(c.indentation, 4);
    assert_eq!(c.if_style, IfStyle::Indented);
    assert_eq!(c.tuple_style, TupleStyle::Spaced);
    assert_eq!(c.newlines_between_decls, 2);
}

#[test]
fn unknown_keys_are_ignored() {
    let c = parse_config_document("something-else: 12\nindentation: 3\n").unwrap();
    assert_eq!(c.indentation, 3);
    assert_eq!(c.newlines_between_decls, 2);
}

#[test]
fn zero_blank_lines_is_a_legal_style() {
    let c = parse_config_document("newlines-between-decls: 0\n").unwrap();
    assert_eq!(c.newlines_between_decls, 0);
}

#[test]
fn unrecognized_if_style_is_a_hard_error() {
    let r = parse_config_document("if-style: sideways\n");
    assert_eq!(r, Err(ConfigError::InvalidIfStyle));
}

#[test]
fn unrecognized_tuple_style_is_a_hard_error() {
    let r = parse_config_document("tuple-style: roomy\n");
    assert_eq!(r, Err(ConfigError::InvalidTupleStyle));
}

#[test]
fn non_numeric_indentation_is_a_hard_error() {
    let r = parse_config_document("indentation: wide\n");
    assert_eq!(r, Err(ConfigError::InvalidIndentation));
}

#[test]
fn oversized_indentation_is_a_hard_error() {
    let r = parse_config_document("indentation: 300\n");
    assert_eq!(r, Err(ConfigError::InvalidIndentation));
}

#[test]
fn negative_newlines_is_a_hard_error() {
    let r = parse_config_document("newlines-between-decls: -1\n");
    assert_eq!(r, Err(ConfigError::InvalidNewlines));
}

#[test]
fn wrong_typed_style_is_a_hard_error() {
    let r = parse_config_document("if-style: 3\n");
    assert_eq!(r, Err(ConfigError::InvalidIfStyle));
}

#[test]
fn malformed_yaml_is_a_hard_error() {
    let r = parse_config_document("indentation: [unclosed\n");
    assert_eq!(r, Err(ConfigError::Unparseable));
}

#[test]
fn non_mapping_document_is_a_hard_error() {
    let r = parse_config_document("just a word");
    assert_eq!(r, Err(ConfigError::NotAMapping));
}

/// Nearest-wins resolution: a document in the starting directory shadows
/// one in an ancestor.
#[test]
fn nearest_document_wins() {
    // A file under a directory with no document of its own, inside one
    // whose document sets indentation to 4.
    let from_inner: Vec<Option<String>> = vec![None, Some("indentation: 4\n".to_string())];
    let c = resolve_config(&from_inner).unwrap();
    assert_eq!(c.indentation, 4);

    // A sibling directory with its own document: 8 wins over the outer 4.
    let from_sibling: Vec<Option<String>> =
        vec![Some("indentation: 8\n".to_string()), Some("indentation: 4\n".to_string())];
    let c2 = resolve_config(&from_sibling).unwrap();
    assert_eq!(c2.indentation, 8);
}

#[test]
fn no_document_anywhere_yields_the_defaults() {
    let docs: Vec<Option<String>> = vec![None, None, None];
    let c = resolve_config(&docs).unwrap();
    assert_eq!(c, FormatterConfig::new());
}

#[test]
fn a_bad_nearest_document_is_not_masked_by_a_good_outer_one() {
    let docs: Vec<Option<String>> =
        vec![Some("if-style: sideways\n".to_string()), Some("indentation: 4\n".to_string())];
    let r = resolve_config(&docs);
    assert_eq!(r, Err(ConfigError::InvalidIfStyle));
}
