//! The formatting-engine adapter: a thin, trusted call into the external
//! rule-driven pretty-printer, and the verified functions built on it.
//!
//! The engine is a black box: it takes source text, a rule document and an
//! indentation unit, and either returns the reformatted text or rejects the
//! input. Its output is named by the uninterpreted function `engine_result`;
//! everything the library proves about formatting goes through that name.

use vstd::prelude::*;

use crate::compose::build_query_chars;
use crate::compose::check_placeholders;
use crate::compose::placeholders_resolved;
use crate::compose::rule_document_spec;
use crate::errors::EngineFailure;
use crate::errors::FmtError;
use crate::errors::fmt_error_of_engine;
use crate::style::FormatterConfig;
use crate::text::chars_to_string;
use crate::text::space_chars;

verus! {

/// What the engine computes: for a rule document, an indentation unit, the
/// idempotence switch and a source text, either the formatted text, or
/// nothing when the engine rejects the input. The engine is deterministic:
/// its output is a function of these arguments alone.
pub uninterp spec fn engine_result(
    rules: Seq<char>,
    indent: Seq<char>,
    skip_idempotence: bool,
    source: Seq<char>,
) -> Option<Seq<char>>;

/// Declares `topiary_core::FormatterError`, the engine's error type, so
/// that trusted items can speak of it; the type stays opaque.
#[verifier::external_type_specification]
#[verifier::external_body]
pub struct ExFormatterError(topiary_core::FormatterError);

/// Relies on the variants of `topiary_core::FormatterError`: each failure
/// is sorted into the kind its variant names. `Idempotence` and
/// `IdempotenceParsing` both report a failed idempotence check; `Query` and
/// `PatternDoesNotMatch` both fault the rule document; `Internal` and
/// `InjectionLanguageResolution` are internal failures (no injection query
/// is ever passed).
#[verifier::external_body]
fn engine_failure_of(e: &topiary_core::FormatterError) -> EngineFailure {
    match e {
        topiary_core::FormatterError::Idempotence => EngineFailure::Idempotence,
        topiary_core::FormatterError::IdempotenceParsing => EngineFailure::Idempotence,
        topiary_core::FormatterError::Parsing => EngineFailure::SourceParse,
        topiary_core::FormatterError::Io => EngineFailure::Io,
        topiary_core::FormatterError::Query(_) => EngineFailure::RuleDocument,
        topiary_core::FormatterError::PatternDoesNotMatch => EngineFailure::RuleDocument,
        topiary_core::FormatterError::Internal(_) => EngineFailure::Internal,
        topiary_core::FormatterError::InjectionLanguageResolution { .. } => EngineFailure::Internal,
    }
}

/// Relies on `topiary_core::formatter_str` with `Operation::Format` and on
/// `TopiaryQuery::new` against the Elm grammar of `tree_sitter_elm`: the
/// engine is deterministic in the rule document, the indentation unit, the
/// idempotence switch and the source text; and when the idempotence check
/// is on, it succeeds only if re-applying the same rules to the output
/// reproduces that output byte for byte.
#[verifier::external_body]
fn engine_format(source: &str, rules: &str, indent: &str, skip_idempotence: bool) -> (r: Result<
    String,
    EngineFailure,
>)
    ensures
        r matches Ok(out) ==> engine_result(rules@, indent@, skip_idempotence, source@) == Some(
            out@,
        ),
        r is Err ==> engine_result(rules@, indent@, skip_idempotence, source@) is None,
        !skip_idempotence ==> (r matches Ok(out) ==> engine_result(rules@, indent@, false, out@)
            == Some(out@)),
{
    let query = topiary_core::TopiaryQuery::new(&tree_sitter_elm::LANGUAGE.into(), rules)
        .map_err(|_| EngineFailure::RuleDocument)?;
    let language = topiary_core::Language {
        name: "elm".to_string(), formatting_query: query, injection_query: None,
        grammar: tree_sitter_elm::LANGUAGE.into(), indent: Some(indent.to_string()),
    };
    let operation = topiary_core::Operation::Format {
        skip_idempotence, tolerate_parsing_errors: false, skip_stage: None };
    let mut output: Vec<u8> = Vec::new();
    match topiary_core::formatter_str(source, &mut output, &language, operation, None) {
        Ok(()) => String::from_utf8(output).map_err(|_| EngineFailure::Io),
        Err(e) => Err(engine_failure_of(e.current_context())),
    }
}

/// Format a source text under a finished rule document and indentation
/// unit, mapping each engine failure to its user-facing kind.
pub fn format_text(source: &str, rules: &String, indent: &String, skip_idempotence: bool) -> (r:
    Result<String, FmtError>)
    ensures
        r matches Ok(out) ==> engine_result(rules@, indent@, skip_idempotence, source@) == Some(
            out@,
        ),
        r is Err ==> engine_result(rules@, indent@, skip_idempotence, source@) is None,
        !skip_idempotence ==> (r matches Ok(out) ==> engine_result(rules@, indent@, false, out@)
            == Some(out@)),
        r matches Err(e) ==> !(e is Config),
{
    match engine_format(source, rules.as_str(), indent.as_str(), skip_idempotence) {
        Ok(s) => Ok(s),
        Err(k) => Err(fmt_error_of_engine(k)),
    }
}

/// Compose the rule document the configuration calls for and hand it to
/// the engine. No unresolved placeholder may reach the engine: the document
/// is tested first, and one with a leftover placeholder is an
/// internal-consistency failure rather than literal rule text. For every
/// configuration with at least one blank line between declarations the test
/// provably never fires (`lemma_placeholders_resolved`).
pub fn format_with_config(content: &str, config: &FormatterConfig, skip_idempotence: bool) -> (r:
    Result<String, FmtError>)
    ensures
        !placeholders_resolved(*config) ==> r == Err::<String, FmtError>(FmtError::RuleComposition),
        r matches Ok(out) ==> engine_result(
            rule_document_spec(*config),
            space_chars(config.indentation as nat),
            skip_idempotence,
            content@,
        ) == Some(out@),
        (placeholders_resolved(*config) && r is Err) ==> engine_result(
            rule_document_spec(*config),
            space_chars(config.indentation as nat),
            skip_idempotence,
            content@,
        ) is None,
        !skip_idempotence ==> (r matches Ok(out) ==> engine_result(
            rule_document_spec(*config),
            space_chars(config.indentation as nat),
            false,
            out@,
        ) == Some(out@)),
        r matches Err(e) ==> !(e is Config),
{
    let doc = build_query_chars(config);
    if !check_placeholders(&doc) {
        return Err(FmtError::RuleComposition);
    }
    let rules = chars_to_string(&doc);
    let indent = config.indent_string();
    format_text(content, &rules, &indent, skip_idempotence)
}

/// Format Elm code with the given configuration, with the idempotence
/// check on. When the call succeeds, the engine has checked that formatting
/// the result again reproduces it: formatting is a fixed point on its own
/// output.
pub fn format_elm(content: &str, config: &FormatterConfig) -> (r: Result<String, FmtError>)
    ensures
        !placeholders_resolved(*config) ==> r == Err::<String, FmtError>(FmtError::RuleComposition),
        r matches Ok(out) ==> engine_result(
            rule_document_spec(*config),
            space_chars(config.indentation as nat),
            false,
            content@,
        ) == Some(out@),
        r matches Ok(out) ==> engine_result(
            rule_document_spec(*config),
            space_chars(config.indentation as nat),
            false,
            out@,
        ) == Some(out@),
        (placeholders_resolved(*config) && r is Err) ==> engine_result(
            rule_document_spec(*config),
            space_chars(config.indentation as nat),
            false,
            content@,
        ) is None,
        r matches Err(e) ==> !(e is Config),
{
    format_with_config(content, config, false)
}

/// The outcome of one formatting call, with the failure flattened into
/// plain fields.
pub struct FormatResult {
    /// Whether formatting succeeded.
    pub success: bool,
    /// The formatted text; empty on failure.
    pub output: String,
    /// A description of the failure; empty on success.
    pub error: String,
}

/// Format Elm code, returning the outcome as plain fields instead of a
/// `Result`.
pub fn format(code: &str, config: &FormatterConfig) -> (r: FormatResult)
    ensures
        r.success ==> engine_result(
            rule_document_spec(*config),
            space_chars(config.indentation as nat),
            false,
            code@,
        ) == Some(r.output@),
        (placeholders_resolved(*config) && !r.success) ==> engine_result(
            rule_document_spec(*config),
            space_chars(config.indentation as nat),
            false,
            code@,
        ) is None,
        r.success ==> r.error@ == Seq::<char>::empty(),
        !r.success ==> r.output@ == Seq::<char>::empty(),
        !r.success ==> r.error@.len() > 0,
{
    match format_elm(code, config) {
        Ok(formatted) => FormatResult { success: true, output: formatted, error: String::new() },
        Err(e) => FormatResult { success: false, output: String::new(), error: e.message() },
    }
}

} // verus!
