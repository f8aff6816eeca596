//! The cascading configuration resolver: the nearest configuration document
//! wins, a partially-specified document merges over the defaults, and a
//! document that exists but cannot be used is a hard failure.
//!
//! Reading the document's syntax is delegated to an external YAML parser
//! behind one trusted reading, whose outcome is named as a function of the
//! document text; every decision made on what was read — which keys count,
//! which values are legal, how the defaults fill the gaps — is verified,
//! and the resolved policy is pinned to the text through those names.

use vstd::prelude::*;

use crate::errors::ConfigError;
use crate::style::DEFAULT_INDENT_SPACES;
use crate::style::DEFAULT_NEWLINES_BETWEEN_DECLS;
use crate::style::FormatterConfig;
use crate::style::IfStyle;
use crate::style::TupleStyle;
use crate::style::default_config;
use crate::text::word_eq;

verus! {

/// Whether a text is a well-formed document of the configuration file's
/// syntax: exactly the texts the YAML parser accepts.
pub uninterp spec fn yaml_well_formed(text: Seq<char>) -> bool;

/// What the document said under a numeric key, as a plain value.
pub enum RawCount {
    /// The key is absent: the default applies.
    Missing,
    /// The key holds this non-negative whole number.
    Count(u64),
    /// The key is present but holds something else.
    Wrong,
}

/// What the document said under a style-word key, as a plain value.
pub enum RawWord {
    /// The key is absent: the default applies.
    Missing,
    /// The key holds a string with these characters.
    Word(Vec<char>),
    /// The key is present but holds something else.
    Wrong,
}

/// Everything the resolver reads from one document, as plain values.
pub struct RawStyleOptions {
    /// The value under `indentation`.
    pub indentation: RawCount,
    /// The value under `if-style`.
    pub if_style: RawWord,
    /// The value under `tuple-style`.
    pub tuple_style: RawWord,
    /// The value under `newlines-between-decls`.
    pub newlines_between_decls: RawCount,
}

/// Whether a well-formed document is a mapping of keys to values; what
/// `Value::is_mapping` answers, a function of the text alone.
pub uninterp spec fn yaml_mapping(text: Seq<char>) -> bool;

/// What the parser reads under the four recognized keys of a well-formed
/// mapping document, as plain values: a function of the text alone.
pub uninterp spec fn raw_options_of(text: Seq<char>) -> RawStyleOptions;

/// One reading of a configuration document, as plain values.
pub enum DocumentReading {
    /// The text is not well-formed YAML.
    Malformed,
    /// Well-formed, but not a mapping of keys to values.
    NotAMapping,
    /// A mapping; the recognized keys' raw values.
    Mapping(RawStyleOptions),
}

/// Relies on `serde_yaml::from_str::<Value>` and on `Value::is_mapping`,
/// `Value::get`, `Value::as_u64` and `Value::as_str`: the parse is
/// deterministic in the text and succeeds exactly on well-formed YAML; and
/// for a mapping document, what stands under each recognized key — absent,
/// a non-negative whole number or a string, or something else — is a
/// function of the text alone, named by `raw_options_of`.
#[verifier::external_body]
fn read_document(text: &str) -> (r: DocumentReading)
    ensures
        r is Malformed <==> !yaml_well_formed(text@),
        r is NotAMapping <==> (yaml_well_formed(text@) && !yaml_mapping(text@)),
        r matches DocumentReading::Mapping(raw) ==> (yaml_well_formed(text@) && yaml_mapping(
            text@,
        ) && raw == raw_options_of(text@)),
{
    let doc: serde_yaml::Value = match serde_yaml::from_str(text) {
        Ok(d) => d, Err(_) => { return DocumentReading::Malformed; },
    };
    if !doc.is_mapping() { return DocumentReading::NotAMapping; }
    let count = |k| doc.get(k).map_or(RawCount::Missing, |v|
        v.as_u64().map_or(RawCount::Wrong, RawCount::Count));
    let word = |k| doc.get(k).map_or(RawWord::Missing, |v|
        v.as_str().map_or(RawWord::Wrong, |s| RawWord::Word(s.chars().collect())));
    DocumentReading::Mapping(RawStyleOptions {
        indentation: count("indentation"), if_style: word("if-style"),
        tuple_style: word("tuple-style"), newlines_between_decls: count("newlines-between-decls"),
    })
}

/// The if-style a word names, if it names one.
pub open spec fn if_style_of_word(w: Seq<char>) -> Option<IfStyle> {
    if w == "indented"@ {
        Some(IfStyle::Indented)
    } else if w == "hanging"@ {
        Some(IfStyle::Hanging)
    } else {
        None
    }
}

/// The tuple style a word names, if it names one.
pub open spec fn tuple_style_of_word(w: Seq<char>) -> Option<TupleStyle> {
    if w == "compact"@ {
        Some(TupleStyle::Compact)
    } else if w == "spaced"@ {
        Some(TupleStyle::Spaced)
    } else {
        None
    }
}

/// A numeric key merged over its default: absent means the default, a
/// value that fits is taken, anything else is the named error.
pub open spec fn merged_count(raw: RawCount, default: u8, err: ConfigError) -> Result<
    u8,
    ConfigError,
> {
    match raw {
        RawCount::Missing => Ok(default),
        RawCount::Count(n) => if n <= u8::MAX {
            Ok(n as u8)
        } else {
            Err(err)
        },
        RawCount::Wrong => Err(err),
    }
}

/// The if-style key merged over its default.
pub open spec fn merged_if_style(raw: RawWord) -> Result<IfStyle, ConfigError> {
    match raw {
        RawWord::Missing => Ok(IfStyle::Indented),
        RawWord::Word(w) => match if_style_of_word(w@) {
            Some(s) => Ok(s),
            None => Err(ConfigError::InvalidIfStyle),
        },
        RawWord::Wrong => Err(ConfigError::InvalidIfStyle),
    }
}

/// The tuple-style key merged over its default.
pub open spec fn merged_tuple_style(raw: RawWord) -> Result<TupleStyle, ConfigError> {
    match raw {
        RawWord::Missing => Ok(TupleStyle::Spaced),
        RawWord::Word(w) => match tuple_style_of_word(w@) {
            Some(s) => Ok(s),
            None => Err(ConfigError::InvalidTupleStyle),
        },
        RawWord::Wrong => Err(ConfigError::InvalidTupleStyle),
    }
}

/// The policy a document's raw values resolve to: each present key merged
/// over its default, the first offending key reported.
pub open spec fn merged_config(raw: RawStyleOptions) -> Result<FormatterConfig, ConfigError> {
    match (
        merged_count(raw.indentation, DEFAULT_INDENT_SPACES, ConfigError::InvalidIndentation),
        merged_if_style(raw.if_style),
        merged_tuple_style(raw.tuple_style),
        merged_count(
            raw.newlines_between_decls,
            DEFAULT_NEWLINES_BETWEEN_DECLS,
            ConfigError::InvalidNewlines,
        ),
    ) {
        (Ok(ind), Ok(ifs), Ok(ts), Ok(nl)) => Ok(
            FormatterConfig {
                indentation: ind,
                if_style: ifs,
                tuple_style: ts,
                newlines_between_decls: nl,
            },
        ),
        (Err(e), _, _, _) => Err(e),
        (_, Err(e), _, _) => Err(e),
        (_, _, Err(e), _) => Err(e),
        (_, _, _, Err(e)) => Err(e),
    }
}

/// Merge a numeric key over its default.
fn merge_count(raw: &RawCount, default: u8, err: ConfigError) -> (r: Result<u8, ConfigError>)
    ensures
        r == merged_count(*raw, default, err),
{
    match raw {
        RawCount::Missing => Ok(default),
        RawCount::Count(n) => if *n <= u8::MAX as u64 {
            Ok(*n as u8)
        } else {
            Err(err)
        },
        RawCount::Wrong => Err(err),
    }
}

/// Merge the if-style key over its default.
fn merge_if_style(raw: &RawWord) -> (r: Result<IfStyle, ConfigError>)
    ensures
        r == merged_if_style(*raw),
{
    match raw {
        RawWord::Missing => Ok(IfStyle::Indented),
        RawWord::Word(w) => {
            if word_eq(w, "indented") {
                Ok(IfStyle::Indented)
            } else if word_eq(w, "hanging") {
                Ok(IfStyle::Hanging)
            } else {
                Err(ConfigError::InvalidIfStyle)
            }
        },
        RawWord::Wrong => Err(ConfigError::InvalidIfStyle),
    }
}

/// Merge the tuple-style key over its default.
fn merge_tuple_style(raw: &RawWord) -> (r: Result<TupleStyle, ConfigError>)
    ensures
        r == merged_tuple_style(*raw),
{
    match raw {
        RawWord::Missing => Ok(TupleStyle::Spaced),
        RawWord::Word(w) => {
            if word_eq(w, "compact") {
                Ok(TupleStyle::Compact)
            } else if word_eq(w, "spaced") {
                Ok(TupleStyle::Spaced)
            } else {
                Err(ConfigError::InvalidTupleStyle)
            }
        },
        RawWord::Wrong => Err(ConfigError::InvalidTupleStyle),
    }
}

/// Merge a document's raw values over the defaults.
pub fn merge_options(raw: &RawStyleOptions) -> (r: Result<FormatterConfig, ConfigError>)
    ensures
        r == merged_config(*raw),
{
    let indentation = match merge_count(
        &raw.indentation,
        DEFAULT_INDENT_SPACES,
        ConfigError::InvalidIndentation,
    ) {
        Ok(v) => v,
        Err(e) => {
            return Err(e);
        },
    };
    let if_style = match merge_if_style(&raw.if_style) {
        Ok(v) => v,
        Err(e) => {
            return Err(e);
        },
    };
    let tuple_style = match merge_tuple_style(&raw.tuple_style) {
        Ok(v) => v,
        Err(e) => {
            return Err(e);
        },
    };
    let newlines_between_decls = match merge_count(
        &raw.newlines_between_decls,
        DEFAULT_NEWLINES_BETWEEN_DECLS,
        ConfigError::InvalidNewlines,
    ) {
        Ok(v) => v,
        Err(e) => {
            return Err(e);
        },
    };
    Ok(FormatterConfig { indentation, if_style, tuple_style, newlines_between_decls })
}

/// What one document resolves to: a hard failure when the text is not
/// well-formed YAML or not a mapping of keys to values, and otherwise the
/// recognized keys' raw values merged over the defaults — unknown keys
/// carry no raw value and so are ignored.
pub open spec fn parsed_config_spec(text: Seq<char>) -> Result<FormatterConfig, ConfigError> {
    if !yaml_well_formed(text) {
        Err(ConfigError::Unparseable)
    } else if !yaml_mapping(text) {
        Err(ConfigError::NotAMapping)
    } else {
        merged_config(raw_options_of(text))
    }
}

/// Read one configuration document: exactly what `parsed_config_spec` says
/// of its text.
pub fn parse_config_document(text: &str) -> (r: Result<FormatterConfig, ConfigError>)
    ensures
        r == parsed_config_spec(text@),
{
    match read_document(text) {
        DocumentReading::Malformed => Err(ConfigError::Unparseable),
        DocumentReading::NotAMapping => Err(ConfigError::NotAMapping),
        DocumentReading::Mapping(raw) => merge_options(&raw),
    }
}

/// The content of the nearest configuration document: the first present
/// entry of the ancestor walk, ordered from the starting directory outward.
pub open spec fn first_present(docs: Seq<Option<String>>) -> Option<String>
    decreases docs.len(),
{
    if docs.len() == 0 {
        None
    } else if docs[0] is Some {
        Some(docs[0]->0)
    } else {
        first_present(docs.skip(1))
    }
}

/// Find the nearest configuration document: the first present entry wins.
pub fn nearest_document<'a>(docs: &'a Vec<Option<String>>) -> (r: Option<&'a String>)
    ensures
        match r {
            Some(d) => first_present(docs@) == Some(*d),
            None => first_present(docs@) is None,
        },
{
    let mut i: usize = 0;
    proof {
        assert(docs@.skip(0) =~= docs@);
    }
    while i < docs.len()
        invariant
            i <= docs@.len(),
            first_present(docs@) == first_present(docs@.skip(i as int)),
        decreases docs@.len() - i,
    {
        match &docs[i] {
            Some(d) => {
                assert(docs@.skip(i as int)[0] == docs@[i as int]);
                return Some(d);
            },
            None => {
                proof {
                    assert(docs@.skip(i as int)[0] == docs@[i as int]);
                    assert(docs@.skip(i as int).skip(1) =~= docs@.skip(i + 1));
                }
                i += 1;
            },
        }
    }
    assert(docs@.skip(i as int) =~= Seq::<Option<String>>::empty());
    None
}

/// Resolve the policy from the ancestor walk's documents: the nearest
/// document wins and is merged over the defaults; with no document at all,
/// the defaults stand. The entries are ordered from the starting directory
/// outward, one per ancestor, present where that directory holds a
/// configuration file.
pub fn resolve_config(ancestor_docs: &Vec<Option<String>>) -> (r: Result<
    FormatterConfig,
    ConfigError,
>)
    ensures
        first_present(ancestor_docs@) is None ==> r == Ok::<FormatterConfig, ConfigError>(
            default_config(),
        ),
        first_present(ancestor_docs@) matches Some(d) ==> r == parsed_config_spec(d@),
{
    match nearest_document(ancestor_docs) {
        None => Ok(FormatterConfig::new()),
        Some(doc) => parse_config_document(doc.as_str()),
    }
}

} // verus!
