//! A process-supervision engine: restart policies, crash escalation,
//! output capture, and the event pipeline behind a tabbed dashboard.
//!
//! The supervision logic is a per-command state machine
//! ([`Supervision`]) that the surrounding runtime drives: it asks what to
//! launch next, performs the launch, and reports the attempt's outcome
//! back. Captured output runs through a bounded ring ([`OutputBuffer`]),
//! and status fans out as [`TuiEvent`] values folded into a [`TuiState`].

pub mod attempt;
pub mod capture;
pub mod descriptor;
pub mod engine;
pub mod ledger;
pub mod text;
pub mod tui_helper;
pub mod tui_state;

pub use attempt::AttemptOutcome;
pub use attempt::ExitStatus;
pub use attempt::crash_folder_path;
pub use attempt::create_command;
pub use attempt::format_hms;
pub use attempt::render_log_line;
pub use attempt::stderr_file_path;
pub use attempt::stdout_file_path;
pub use capture::OutputBuffer;
pub use descriptor::BackupStrategy;
pub use descriptor::CommandDescriptor;
pub use descriptor::ConfigError;
pub use descriptor::DEFAULT_HISTORY;
pub use descriptor::RestartMode;
pub use descriptor::parse_period;
pub use engine::Phase;
pub use engine::Supervision;
pub use engine::tab_titles;
pub use ledger::CrashLedger;
pub use text::parse_i64;
pub use text::str_eq;
pub use tui_helper::Event;
pub use tui_helper::TabsState;
pub use tui_state::InputKey;
pub use tui_state::Severity;
pub use tui_state::TabState;
pub use tui_state::TuiEvent;
pub use tui_state::TuiState;
