//! The style configuration model: the resolved formatting policy for one
//! file or directory subtree, together with its hard-coded defaults.

use vstd::prelude::*;

use crate::text::chars_to_string;
use crate::text::escaped_newline_text;
use crate::text::escaped_newlines;
use crate::text::space_chars;
use crate::text::space_text;

verus! {

/// Default number of spaces for indentation.
pub const DEFAULT_INDENT_SPACES: u8 = 2;

/// Default number of blank lines between top-level declarations.
pub const DEFAULT_NEWLINES_BETWEEN_DECLS: u8 = 2;

/// Layout of if-then-else expressions.
#[derive(Debug, Clone, Copy, PartialEq, Eq, Structural)]
pub enum IfStyle {
    /// `then` and `else` stand on their own lines, indented under the condition.
    Indented,
    /// `then` hangs at the end of the condition line.
    Hanging,
}

/// Layout of tuple expressions.
#[derive(Debug, Clone, Copy, PartialEq, Eq, Structural)]
pub enum TupleStyle {
    /// No spaces inside the parentheses: `(a, b)`.
    Compact,
    /// Spaces inside the parentheses: `( a, b )`.
    Spaced,
}

/// The resolved formatting policy: every field holds a concrete value,
/// partially-specified configuration documents having been merged over the
/// defaults before a value of this type is built.
#[derive(Debug, Clone, Copy, PartialEq, Eq, Structural)]
pub struct FormatterConfig {
    /// Number of spaces making up one indentation step.
    pub indentation: u8,
    /// Layout of if-then-else expressions.
    pub if_style: IfStyle,
    /// Layout of tuple expressions.
    pub tuple_style: TupleStyle,
    /// Number of blank lines between top-level declarations.
    pub newlines_between_decls: u8,
}

/// The hard-coded default policy.
pub open spec fn default_config() -> FormatterConfig {
    FormatterConfig {
        indentation: DEFAULT_INDENT_SPACES,
        if_style: IfStyle::Indented,
        tuple_style: TupleStyle::Spaced,
        newlines_between_decls: DEFAULT_NEWLINES_BETWEEN_DECLS,
    }
}

impl FormatterConfig {
    /// Build the default policy.
    pub fn new() -> (c: FormatterConfig)
        ensures
            c == default_config(),
    {
        FormatterConfig {
            indentation: DEFAULT_INDENT_SPACES,
            if_style: IfStyle::Indented,
            tuple_style: TupleStyle::Spaced,
            newlines_between_decls: DEFAULT_NEWLINES_BETWEEN_DECLS,
        }
    }

    /// Replace the indentation width, keeping every other choice.
    pub fn set_indentation(&mut self, value: u8)
        ensures
            *final(self) == (FormatterConfig { indentation: value, ..*old(self) }),
    {
        self.indentation = value;
    }

    /// Replace the if-expression layout, keeping every other choice.
    pub fn set_if_style(&mut self, value: IfStyle)
        ensures
            *final(self) == (FormatterConfig { if_style: value, ..*old(self) }),
    {
        self.if_style = value;
    }

    /// Replace the tuple layout, keeping every other choice.
    pub fn set_tuple_style(&mut self, value: TupleStyle)
        ensures
            *final(self) == (FormatterConfig { tuple_style: value, ..*old(self) }),
    {
        self.tuple_style = value;
    }

    /// Replace the blank-line count between declarations, keeping every
    /// other choice.
    pub fn set_newlines_between_decls(&mut self, value: u8)
        ensures
            *final(self) == (FormatterConfig { newlines_between_decls: value, ..*old(self) }),
    {
        self.newlines_between_decls = value;
    }
}

impl FormatterConfig {
    /// The indentation unit: one step's worth of spaces.
    pub fn indent_string(&self) -> (s: String)
        ensures
            s@ == space_chars(self.indentation as nat),
    {
        let v = space_text(self.indentation as usize);
        chars_to_string(&v)
    }

    /// The separator between top-level declarations, in the raw escaped
    /// line-break form used inside quoted rule literals. The stored value
    /// counts blank lines, so the separator carries one extra line break:
    /// the one that ends the previous declaration's last line.
    pub fn decl_delimiter(&self) -> (s: String)
        ensures
            s@ == escaped_newlines((self.newlines_between_decls + 1) as nat),
    {
        let v = escaped_newline_text(self.newlines_between_decls as usize + 1);
        chars_to_string(&v)
    }

    /// The separator that follows a section-introducing comment: one
    /// line-break unit shorter than the declaration separator, because the
    /// rule governing that position already contributes one line break.
    pub fn section_comment_delimiter(&self) -> (s: String)
        ensures
            s@ == escaped_newlines(self.newlines_between_decls as nat),
    {
        let v = escaped_newline_text(self.newlines_between_decls as usize);
        chars_to_string(&v)
    }
}

impl Default for FormatterConfig {
    /// The default policy, equal to what `new` builds.
    fn default() -> (c: FormatterConfig)
        ensures
            c == default_config(),
    {
        FormatterConfig::new()
    }
}

} // verus!
