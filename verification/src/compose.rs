//! The rule-document composer: selects one fragment of rule text per style
//! choice, concatenates the fragments in a fixed order, and substitutes the
//! computed delimiters for the placeholder tokens.
//!
//! The fragments' text is a fixed asset of the crate. Each fragment is a
//! block of pattern rules in the formatting engine's query language; the
//! composer's job — the part that is verified — is that the right fragments
//! are chosen, that they are assembled in the right order, and that the
//! placeholder tokens are substituted by exactly the configured delimiters.

use vstd::prelude::*;

use crate::style::FormatterConfig;
use crate::style::IfStyle;
use crate::style::TupleStyle;
use crate::text::chars_disjoint;
use crate::text::chars_to_string;
use crate::text::contains_token;
use crate::text::escaped_newline_text;
use crate::text::escaped_newlines;
use crate::text::has_token;
use crate::text::replace_all;
use crate::text::replace_token;
use crate::text::str_to_chars;

verus! {

/// The placeholder that marks where the separator between top-level
/// declarations belongs.
pub open spec fn decl_placeholder_spec() -> Seq<char> {
    "__DECL_DELIMITER__"@
}

/// See `decl_placeholder_spec`.
pub fn decl_placeholder() -> (r: &'static str)
    ensures
        r@ == decl_placeholder_spec(),
{
    "__DECL_DELIMITER__"
}

/// The placeholder that marks where the separator after a
/// section-introducing comment belongs.
pub open spec fn section_placeholder_spec() -> Seq<char> {
    "__SECTION_COMMENT_DELIMITER__"@
}

/// See `section_placeholder_spec`.
pub fn section_placeholder() -> (r: &'static str)
    ensures
        r@ == section_placeholder_spec(),
{
    "__SECTION_COMMENT_DELIMITER__"
}

/// The base rule set, shared by every style: plain expressions, patterns,
/// comments and the declarations whose layout is no style choice keep
/// their text as written; the top-level layout — one line per import and
/// annotation, the separators between declarations through the two
/// placeholder tokens, a declaration's own shape and a union type's
/// variant lines — is settled here.
pub open spec fn base_rules_spec() -> Seq<char> {
    "; Rules shared by every style.

; Declarations, comments and plain expressions keep their text as
; written: the rules below settle the top-level layout and the
; constructs whose layout is a configured style choice.
[
  (module_declaration)
  (import_clause)
  (type_annotation)
  (port_annotation)
  (type_alias_declaration)
  (infix_declaration)
  (line_comment)
  (block_comment)
  (anonymous_function_expr)
  (bin_op_expr)
  (case_of_expr)
  (char_constant_expr)
  (field_access_expr)
  (field_accessor_function_expr)
  (function_call_expr)
  (glsl_code_expr)
  (let_in_expr)
  (list_expr)
  (negate_expr)
  (number_constant_expr)
  (operator_as_function_expr)
  (parenthesized_expr)
  (record_expr)
  (string_constant_expr)
  (unit_expr)
  (value_expr)
  (pattern)
  (lower_pattern)
  (anything_pattern)
  (record_pattern)
  (list_pattern)
  (union_pattern)
  (cons_pattern)
  (nullary_constructor_argument_pattern)
  (lower_case_identifier)
  (upper_case_identifier)
  (union_variant)
  (lower_type_name)
] @leaf

; The module line, imports, annotations and comments end their line.
(file (module_declaration) @append_hardline)
(file (import_clause) @append_hardline)
(file (type_annotation) @append_hardline)
(file (port_annotation) @append_hardline)
(file (line_comment) @append_hardline)
(file (block_comment) @append_hardline)

; Top-level declarations are separated by the configured number of
; blank lines; the separator carries the ending line break itself.
(file
  [
    (value_declaration)
    (type_declaration)
    (type_alias_declaration)
    (infix_declaration)
  ] @append_delimiter
  .
  [
    (value_declaration)
    (type_declaration)
    (type_alias_declaration)
    (type_annotation)
    (infix_declaration)
    (line_comment)
    (block_comment)
  ]
  (#delimiter! \"__DECL_DELIMITER__\"))

; A comment that introduces a section of declarations already ends its
; own line, so its separator is one line break short.
(file
  (line_comment) @append_delimiter
  .
  [
    (value_declaration)
    (type_declaration)
    (type_alias_declaration)
    (type_annotation)
  ]
  (#delimiter! \"__SECTION_COMMENT_DELIMITER__\"))

; A value declaration: name and arguments spaced, the body on the same
; line as the equals sign, lines broken inside it one step deep.
(value_declaration (function_declaration_left) @append_space)
(function_declaration_left (_) @append_space)
(value_declaration (eq) @append_space @append_indent_start)
(value_declaration) @append_indent_end

; A union type: the variants stand one per line, one step in.
(type_declaration (type) @append_space)
(type_declaration (lower_type_name) @prepend_space)
(type_declaration (upper_case_identifier) @append_indent_start)
(type_declaration (eq) @prepend_hardline @append_space)
(type_declaration \"|\" @prepend_hardline @append_space)
(type_declaration) @append_indent_end
"@
}

/// See `base_rules_spec`.
pub fn base_rules() -> (r: &'static str)
    ensures
        r@ == base_rules_spec(),
{
    "; Rules shared by every style.

; Declarations, comments and plain expressions keep their text as
; written: the rules below settle the top-level layout and the
; constructs whose layout is a configured style choice.
[
  (module_declaration)
  (import_clause)
  (type_annotation)
  (port_annotation)
  (type_alias_declaration)
  (infix_declaration)
  (line_comment)
  (block_comment)
  (anonymous_function_expr)
  (bin_op_expr)
  (case_of_expr)
  (char_constant_expr)
  (field_access_expr)
  (field_accessor_function_expr)
  (function_call_expr)
  (glsl_code_expr)
  (let_in_expr)
  (list_expr)
  (negate_expr)
  (number_constant_expr)
  (operator_as_function_expr)
  (parenthesized_expr)
  (record_expr)
  (string_constant_expr)
  (unit_expr)
  (value_expr)
  (pattern)
  (lower_pattern)
  (anything_pattern)
  (record_pattern)
  (list_pattern)
  (union_pattern)
  (cons_pattern)
  (nullary_constructor_argument_pattern)
  (lower_case_identifier)
  (upper_case_identifier)
  (union_variant)
  (lower_type_name)
] @leaf

; The module line, imports, annotations and comments end their line.
(file (module_declaration) @append_hardline)
(file (import_clause) @append_hardline)
(file (type_annotation) @append_hardline)
(file (port_annotation) @append_hardline)
(file (line_comment) @append_hardline)
(file (block_comment) @append_hardline)

; Top-level declarations are separated by the configured number of
; blank lines; the separator carries the ending line break itself.
(file
  [
    (value_declaration)
    (type_declaration)
    (type_alias_declaration)
    (infix_declaration)
  ] @append_delimiter
  .
  [
    (value_declaration)
    (type_declaration)
    (type_alias_declaration)
    (type_annotation)
    (infix_declaration)
    (line_comment)
    (block_comment)
  ]
  (#delimiter! \"__DECL_DELIMITER__\"))

; A comment that introduces a section of declarations already ends its
; own line, so its separator is one line break short.
(file
  (line_comment) @append_delimiter
  .
  [
    (value_declaration)
    (type_declaration)
    (type_alias_declaration)
    (type_annotation)
  ]
  (#delimiter! \"__SECTION_COMMENT_DELIMITER__\"))

; A value declaration: name and arguments spaced, the body on the same
; line as the equals sign, lines broken inside it one step deep.
(value_declaration (function_declaration_left) @append_space)
(function_declaration_left (_) @append_space)
(value_declaration (eq) @append_space @append_indent_start)
(value_declaration) @append_indent_end

; A union type: the variants stand one per line, one step in.
(type_declaration (type) @append_space)
(type_declaration (lower_type_name) @prepend_space)
(type_declaration (upper_case_identifier) @append_indent_start)
(type_declaration (eq) @prepend_hardline @append_space)
(type_declaration \"|\" @prepend_hardline @append_space)
(type_declaration) @append_indent_end
"
}

/// The rule fragment for the indented if-style: `then` and `else` each
/// start a line of their own under the condition.
pub open spec fn if_indented_spec() -> Seq<char> {
    "; Indented if-style: then and else each start a line of their own, one
; step deeper than the if.
(if_else_expr) @prepend_indent_start @append_indent_end
(if_else_expr \"if\" @append_space)
(if_else_expr \"then\" @prepend_hardline @append_space)
(if_else_expr \"else\" @prepend_hardline @append_space)
"@
}

/// See `if_indented_spec`.
pub fn if_indented_fragment() -> (r: &'static str)
    ensures
        r@ == if_indented_spec(),
{
    "; Indented if-style: then and else each start a line of their own, one
; step deeper than the if.
(if_else_expr) @prepend_indent_start @append_indent_end
(if_else_expr \"if\" @append_space)
(if_else_expr \"then\" @prepend_hardline @append_space)
(if_else_expr \"else\" @prepend_hardline @append_space)
"
}

/// The rule fragment for the hanging if-style: `then` hangs at the end of
/// the condition line.
pub open spec fn if_hanging_spec() -> Seq<char> {
    "; Hanging if-style: then hangs at the end of the condition line.
(if_else_expr) @prepend_indent_start @append_indent_end
(if_else_expr \"if\" @append_space)
(if_else_expr \"then\" @prepend_space @append_space)
(if_else_expr \"else\" @prepend_hardline @append_space)
"@
}

/// See `if_hanging_spec`.
pub fn if_hanging_fragment() -> (r: &'static str)
    ensures
        r@ == if_hanging_spec(),
{
    "; Hanging if-style: then hangs at the end of the condition line.
(if_else_expr) @prepend_indent_start @append_indent_end
(if_else_expr \"if\" @append_space)
(if_else_expr \"then\" @prepend_space @append_space)
(if_else_expr \"else\" @prepend_hardline @append_space)
"
}

/// The rule fragment for the spaced tuple style: `( a, b )`.
pub open spec fn tuple_spaced_spec() -> Seq<char> {
    "; Spaced tuple style: a space inside the parentheses.
(tuple_expr \"(\" @append_space)
(tuple_expr \")\" @prepend_space)
(tuple_expr \",\" @append_space)
(tuple_pattern \"(\" @append_space)
(tuple_pattern \")\" @prepend_space)
(tuple_pattern \",\" @append_space)
"@
}

/// See `tuple_spaced_spec`.
pub fn tuple_spaced_fragment() -> (r: &'static str)
    ensures
        r@ == tuple_spaced_spec(),
{
    "; Spaced tuple style: a space inside the parentheses.
(tuple_expr \"(\" @append_space)
(tuple_expr \")\" @prepend_space)
(tuple_expr \",\" @append_space)
(tuple_pattern \"(\" @append_space)
(tuple_pattern \")\" @prepend_space)
(tuple_pattern \",\" @append_space)
"
}

/// The rule fragment for the compact tuple style: `(a, b)`.
pub open spec fn tuple_compact_spec() -> Seq<char> {
    "; Compact tuple style: no space inside the parentheses.
(tuple_expr \"(\" @append_antispace)
(tuple_expr \")\" @prepend_antispace)
(tuple_expr \",\" @append_space)
(tuple_pattern \"(\" @append_antispace)
(tuple_pattern \")\" @prepend_antispace)
(tuple_pattern \",\" @append_space)
"@
}

/// See `tuple_compact_spec`.
pub fn tuple_compact_fragment() -> (r: &'static str)
    ensures
        r@ == tuple_compact_spec(),
{
    "; Compact tuple style: no space inside the parentheses.
(tuple_expr \"(\" @append_antispace)
(tuple_expr \")\" @prepend_antispace)
(tuple_expr \",\" @append_space)
(tuple_pattern \"(\" @append_antispace)
(tuple_pattern \")\" @prepend_antispace)
(tuple_pattern \",\" @append_space)
"
}

/// The blank line standing between two concatenated fragments.
pub open spec fn fragment_separator_spec() -> Seq<char> {
    "\n\n"@
}

/// The fragment chosen by the if-style: a total selection, one fragment
/// for each variant.
pub open spec fn if_fragment_spec(style: IfStyle) -> Seq<char> {
    match style {
        IfStyle::Indented => if_indented_spec(),
        IfStyle::Hanging => if_hanging_spec(),
    }
}

/// See `if_fragment_spec`.
pub fn if_fragment(style: IfStyle) -> (r: &'static str)
    ensures
        r@ == if_fragment_spec(style),
{
    match style {
        IfStyle::Hanging => if_hanging_fragment(),
        IfStyle::Indented => if_indented_fragment(),
    }
}

/// The fragment chosen by the tuple style: a total selection, one fragment
/// for each variant.
pub open spec fn tuple_fragment_spec(style: TupleStyle) -> Seq<char> {
    match style {
        TupleStyle::Compact => tuple_compact_spec(),
        TupleStyle::Spaced => tuple_spaced_spec(),
    }
}

/// See `tuple_fragment_spec`.
pub fn tuple_fragment(style: TupleStyle) -> (r: &'static str)
    ensures
        r@ == tuple_fragment_spec(style),
{
    match style {
        TupleStyle::Spaced => tuple_spaced_fragment(),
        TupleStyle::Compact => tuple_compact_fragment(),
    }
}

/// The concatenation of the base rules and the two chosen fragments, in
/// that fixed order, each separated by a blank line; the placeholders are
/// still in place.
pub open spec fn skeleton_spec(c: FormatterConfig) -> Seq<char> {
    base_rules_spec() + fragment_separator_spec() + if_fragment_spec(c.if_style)
        + fragment_separator_spec() + tuple_fragment_spec(c.tuple_style)
}

/// The finished rule document for a configuration: the skeleton with the
/// declaration separator substituted for its placeholder, then the
/// section-comment separator for its placeholder.
pub open spec fn rule_document_spec(c: FormatterConfig) -> Seq<char> {
    replace_all(
        replace_all(
            skeleton_spec(c),
            decl_placeholder_spec(),
            escaped_newlines((c.newlines_between_decls + 1) as nat),
        ),
        section_placeholder_spec(),
        escaped_newlines(c.newlines_between_decls as nat),
    )
}

/// Every character of an escaped line-break text is a backslash or the
/// letter `n`.
proof fn lemma_escaped_newlines_chars(n: nat)
    ensures
        forall|i: int|
            0 <= i < escaped_newlines(n).len() ==> (escaped_newlines(n)[i] == '\\'
                || escaped_newlines(n)[i] == 'n'),
    decreases n,
{
    if n > 0 {
        lemma_escaped_newlines_chars((n - 1) as nat);
        let prev = escaped_newlines((n - 1) as nat);
        let cur = escaped_newlines(n);
        assert(cur == prev + seq!['\\', 'n']);
        assert forall|i: int| 0 <= i < cur.len() implies (cur[i] == '\\' || cur[i] == 'n') by {
            if i < prev.len() {
                assert(cur[i] == prev[i]);
            } else if i == prev.len() {
                assert(cur[i] == '\\');
            } else {
                assert(cur[i] == 'n');
            }
        }
    }
}

/// Both placeholders are gone from the composed rule document: substitution
/// was exhaustive and the engine receives no placeholder as literal text.
pub open spec fn placeholders_resolved(c: FormatterConfig) -> bool {
    &&& !contains_token(rule_document_spec(c), decl_placeholder_spec())
    &&& !contains_token(rule_document_spec(c), section_placeholder_spec())
}

/// Substitution is exhaustive for every configuration with at least one
/// blank line between declarations. With no blank line the section
/// separator is the empty text, and substituting an empty text gives no
/// such static guarantee; there the engine adapter's run-time check stands
/// in (see `check_placeholders`), and it never fires on these fragments.
pub proof fn lemma_placeholders_resolved(c: FormatterConfig)
    requires
        c.newlines_between_decls >= 1,
    ensures
        placeholders_resolved(c),
{
    reveal_strlit("__DECL_DELIMITER__");
    reveal_strlit("__SECTION_COMMENT_DELIMITER__");
    let decl = decl_placeholder_spec();
    let sec = section_placeholder_spec();
    let rd = escaped_newlines((c.newlines_between_decls + 1) as nat);
    let rs = escaped_newlines(c.newlines_between_decls as nat);
    lemma_escaped_newlines_chars((c.newlines_between_decls + 1) as nat);
    lemma_escaped_newlines_chars(c.newlines_between_decls as nat);
    crate::text::lemma_escaped_newlines_len((c.newlines_between_decls + 1) as nat);
    crate::text::lemma_escaped_newlines_len(c.newlines_between_decls as nat);
    assert(forall|b: int| 0 <= b < decl.len() ==> decl[b] != '\\' && decl[b] != 'n');
    assert(forall|b: int| 0 <= b < sec.len() ==> sec[b] != '\\' && sec[b] != 'n');
    assert(chars_disjoint(rd, decl));
    assert(chars_disjoint(rs, sec));
    assert(chars_disjoint(rs, decl));
    let inner = replace_all(skeleton_spec(c), decl, rd);
    crate::text::lemma_substitution_exhaustive(skeleton_spec(c), decl, rd);
    crate::text::lemma_substitution_exhaustive(inner, sec, rs);
    crate::text::lemma_substitution_preserves_absence(inner, sec, rs, decl);
}

/// Compose the rule document for a configuration. A deterministic, total
/// function of the configuration: every combination of styles selects its
/// pair of fragments, and both placeholders are substituted by the
/// delimiters that the configuration calls for.
pub fn build_query(config: &FormatterConfig) -> (q: String)
    ensures
        q@ == rule_document_spec(*config),
{
    let doc = build_query_chars(config);
    chars_to_string(&doc)
}

/// Compose the rule document for a configuration, as characters.
pub fn build_query_chars(config: &FormatterConfig) -> (q: Vec<char>)
    ensures
        q@ == rule_document_spec(*config),
{
    let mut doc: Vec<char> = str_to_chars(base_rules());
    let mut sep1 = str_to_chars("\n\n");
    doc.append(&mut sep1);
    let mut iff = str_to_chars(if_fragment(config.if_style));
    doc.append(&mut iff);
    let mut sep2 = str_to_chars("\n\n");
    doc.append(&mut sep2);
    let mut tup = str_to_chars(tuple_fragment(config.tuple_style));
    doc.append(&mut tup);
    assert(doc@ == skeleton_spec(*config));

    let decl_token = str_to_chars(decl_placeholder());
    let decl_rep = escaped_newline_text(config.newlines_between_decls as usize + 1);
    let doc = replace_token(&doc, &decl_token, &decl_rep);

    let section_token = str_to_chars(section_placeholder());
    let section_rep = escaped_newline_text(config.newlines_between_decls as usize);
    replace_token(&doc, &section_token, &section_rep)
}

/// Decide whether both placeholders are gone from a composed document: the
/// run-time form of the exhaustiveness guarantee, for the engine adapter to
/// test before any document reaches the engine.
pub fn check_placeholders(doc: &Vec<char>) -> (b: bool)
    ensures
        b == (!contains_token(doc@, decl_placeholder_spec()) && !contains_token(
            doc@,
            section_placeholder_spec(),
        )),
{
    let decl = str_to_chars(decl_placeholder());
    let section = str_to_chars(section_placeholder());
    !has_token(doc, &decl) && !has_token(doc, &section)
}

} // verus!
