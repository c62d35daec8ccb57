//! Command-line digest calculator core: target resolution, per-target
//! result reporting, and aggregate exit-status derivation.

pub mod cli;
pub mod digest;
pub mod exit;
pub mod report;
pub mod target;

pub use cli::resolve_targets;
pub use cli::Args;
pub use cli::Color;
pub use cli::Command;
pub use cli::Options;
pub use cli::SelectionError;
pub use cli::Subcommand;
pub use digest::Digest;
pub use digest::IoFailure;
pub use exit::aggregate_exitcode;
pub use exit::exitcode;
pub use exit::EXITCODE_IOERR;
pub use exit::EXITCODE_OK;
pub use report::print_result;
pub use report::render_report;
pub use report::report_all;
pub use report::ReportLine;
pub use report::Stream;
pub use report::WriteError;
pub use target::Target;
