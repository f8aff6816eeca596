use elmfmt::FormatterConfig;
use elmfmt::IfStyle;
use elmfmt::TupleStyle;

#[test]
fn defaults_are_the_hard_coded_policy() {
    let c = FormatterConfig::new();
    assert_eq!(c.indentation, 2);
    assert_eq!(c.if_style, IfStyle::Indented);
    assert_eq!(c.tuple_style, TupleStyle::Spaced);
    assert_eq!(c.newlines_between_decls, 2);
    let d = FormatterConfig::default();
    assert_eq!(d.indentation, 2);
    assert_eq!(d.if_style, IfStyle::Indented);
    assert_eq!(d.tuple_style, TupleStyle::Spaced);
    assert_eq!(d.newlines_between_decls, 2);
}

#[test]
fn setters_replace_one_field_each() {
    let mut c = FormatterConfig::new();
    c.set_indentation(7);
    assert_eq!(c.indentation, 7);
    assert_eq!(c.newlines_between_decls, 2);
    c.set_if_style(IfStyle::Hanging);
    assert_eq!(c.if_style, IfStyle::Hanging);
    assert_eq!(c.indentation, 7);
    c.set_tuple_style(TupleStyle::Compact);
    assert_eq!(c.tuple_style, TupleStyle::Compact);
    c.set_newlines_between_decls(0);
    assert_eq!(c.newlines_between_decls, 0);
    assert_eq!(c.if_style, IfStyle::Hanging);
}

#[test]
fn indent_string_is_that_many_spaces() {
    let mut c = FormatterConfig::new();
    assert_eq!(c.indent_string(), "  ");
    c.set_indentation(0);
    assert_eq!(c.indent_string(), "");
    c.set_indentation(8);
    assert_eq!(c.indent_string(), "        ");
}

#[test]
fn decl_delimiter_has_one_more_unit_than_blank_lines() {
    let mut c = FormatterConfig::new();
    c.set_newlines_between_decls(0);
    assert_eq!(c.decl_delimiter(), "\\n");
    c.set_newlines_between_decls(1);
    assert_eq!(c.decl_delimiter(), "\\n\\n");
    c.set_newlines_between_decls(2);
    assert_eq!(c.decl_delimiter(), "\\n\\n\\n");
    c.set_newlines_between_decls(5);
    assert_eq!(c.decl_delimiter(), "\\n\\n\\n\\n\\n\\n");
}

#[test]
fn section_comment_delimiter_is_one_unit_shorter() {
    let mut c = FormatterConfig::new();
    c.set_newlines_between_decls(0);
    assert_eq!(c.section_comment_delimiter(), "");
    c.set_newlines_between_decls(2);
    assert_eq!(c.section_comment_delimiter(), "\\n\\n");
    assert_eq!(c.decl_delimiter().len(), c.section_comment_delimiter().len() + 2);
}
