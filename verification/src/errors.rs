//! The user-facing error taxonomy, and the engine-level failure kinds it is
//! derived from.

use vstd::prelude::*;

verus! {

/// Why a configuration document was rejected. A document that exists but
/// cannot be used is a hard failure: falling back to the defaults would
/// mask a typo as a stylistic choice.
#[derive(Debug, Clone, Copy, PartialEq, Eq, Structural)]
pub enum ConfigError {
    /// The document is not well-formed YAML.
    Unparseable,
    /// The document is well-formed but is not a mapping of keys to values.
    NotAMapping,
    /// The indentation width is not a whole number of spaces that fits.
    InvalidIndentation,
    /// The if-style names neither recognized layout.
    InvalidIfStyle,
    /// The tuple-style names neither recognized layout.
    InvalidTupleStyle,
    /// The blank-line count is not a whole number that fits.
    InvalidNewlines,
}

/// The failure kinds the formatting engine can report, as sorted by the
/// engine adapter.
#[derive(Debug, Clone, Copy, PartialEq, Eq, Structural)]
pub enum EngineFailure {
    /// The rule document was rejected by the engine.
    RuleDocument,
    /// The source text is not valid in the language's grammar.
    SourceParse,
    /// Re-applying the rules to the engine's own output changed it again.
    Idempotence,
    /// The engine could not read its input or produce valid encoded output.
    Io,
    /// The engine failed an internal consistency check.
    Internal,
}

/// A fatal error for one formatting task.
#[derive(Debug, Clone, Copy, PartialEq, Eq, Structural)]
pub enum FmtError {
    /// A configuration document exists but cannot be used.
    Config(ConfigError),
    /// The composed rule document violates the engine's expectations; an
    /// internal-consistency failure.
    RuleComposition,
    /// The input text does not parse in the source language's grammar.
    SourceParse,
    /// Formatting the formatted output changed it again.
    Idempotence,
    /// A file or stream could not be read or written.
    Io,
}

/// The user-facing kind of each engine failure.
pub open spec fn fmt_error_of_engine_spec(k: EngineFailure) -> FmtError {
    match k {
        EngineFailure::RuleDocument => FmtError::RuleComposition,
        EngineFailure::SourceParse => FmtError::SourceParse,
        EngineFailure::Idempotence => FmtError::Idempotence,
        EngineFailure::Io => FmtError::Io,
        EngineFailure::Internal => FmtError::RuleComposition,
    }
}

/// Sort an engine failure into its user-facing kind.
pub fn fmt_error_of_engine(k: EngineFailure) -> (e: FmtError)
    ensures
        e == fmt_error_of_engine_spec(k),
{
    match k {
        EngineFailure::RuleDocument => FmtError::RuleComposition,
        EngineFailure::SourceParse => FmtError::SourceParse,
        EngineFailure::Idempotence => FmtError::Idempotence,
        EngineFailure::Io => FmtError::Io,
        EngineFailure::Internal => FmtError::RuleComposition,
    }
}

impl ConfigError {
    /// A short, never empty description of the rejection.
    pub fn message(&self) -> (m: String)
        ensures
            m@.len() > 0,
    {
        proof {
            reveal_strlit("configuration file is not well-formed YAML");
            reveal_strlit("configuration file is not a mapping of keys");
            reveal_strlit("indentation must be a small whole number");
            reveal_strlit("if-style must be \"indented\" or \"hanging\"");
            reveal_strlit("tuple-style must be \"compact\" or \"spaced\"");
            reveal_strlit("newlines-between-decls must be a small whole number");
        }
        match self {
            ConfigError::Unparseable => "configuration file is not well-formed YAML".to_owned(),
            ConfigError::NotAMapping => "configuration file is not a mapping of keys".to_owned(),
            ConfigError::InvalidIndentation => "indentation must be a small whole number".to_owned(),
            ConfigError::InvalidIfStyle => "if-style must be \"indented\" or \"hanging\"".to_owned(),
            ConfigError::InvalidTupleStyle => "tuple-style must be \"compact\" or \"spaced\"".to_owned(),
            ConfigError::InvalidNewlines => "newlines-between-decls must be a small whole number".to_owned(),
        }
    }
}

impl FmtError {
    /// A short, never empty description of the failure.
    pub fn message(&self) -> (m: String)
        ensures
            m@.len() > 0,
    {
        proof {
            reveal_strlit("the formatting rules were rejected by the engine");
            reveal_strlit("the input is not valid Elm");
            reveal_strlit("formatting the formatted output changed it again");
            reveal_strlit("a file or stream could not be read or written");
        }
        match self {
            FmtError::Config(c) => c.message(),
            FmtError::RuleComposition => "the formatting rules were rejected by the engine".to_owned(),
            FmtError::SourceParse => "the input is not valid Elm".to_owned(),
            FmtError::Idempotence => "formatting the formatted output changed it again".to_owned(),
            FmtError::Io => "a file or stream could not be read or written".to_owned(),
        }
    }
}

} // verus!
