//! A rule-driven formatter for Elm source code.
//!
//! The crate owns the style configuration model, the composition of the
//! rule document handed to the formatting engine, the cascading discovery
//! of project-local configuration, and the batch-processing policy.

pub mod batch;
pub mod compose;
pub mod config;
pub mod engine;
pub mod errors;
pub mod style;
pub mod text;

pub use engine::FormatResult;
pub use engine::format_elm;
pub use batch::BatchJob;
pub use batch::FormatOutcome;
pub use batch::InvocationError;
pub use batch::OutputMode;
pub use batch::WalkedEntry;
pub use config::RawStyleOptions;
pub use errors::ConfigError;
pub use errors::FmtError;
pub use style::FormatterConfig;
pub use style::IfStyle;
pub use style::TupleStyle;
