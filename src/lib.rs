//! Terminal utility manager: a port scanner with its configuration wizard,
//! shell alias and bookmark helpers, a process clean-up menu and the main
//! menu that ties them together. Everything here is plain state and text;
//! terminal drawing, sockets, files and processes are handled by the caller.

pub mod app;
pub mod text;
pub mod clock;
pub mod errors;
pub mod features;
pub mod shell;
pub mod logo;
pub mod menu;
pub mod theme;
pub mod rc_file;

pub use app::{ActiveFeature, App, AppRequest, AppState, Key, KeyPress};
pub use errors::ModeError;
pub use features::alias_manager::{AliasManager, AliasManagerState, AliasRequest};
pub use features::bookmark_manager::{BookmarkManager, BookmarkManagerState};
pub use features::engine::ScanSession;
pub use features::placeholder::PlaceholderFeature;
pub use features::ports::parse_port_range;
pub use features::process_manager::{KillOutcome, ProcessAction, ProcessManager, ProcessManagerState};
pub use features::report::{report_file_name_for, report_text_for, scan_report, ScanReport};
pub use features::scanner::{PortInfo, PortState, ScanOption, ScanType, Scanner, ScannerState};
pub use features::services::detect_service;
pub use features::target::validate_target;
pub use features::usage_viewer::{UsageViewer, UsageViewerState};
pub use logo::Logo;
pub use menu::{MenuItem, MenuState};
pub use shell::{shell_type_from_path, validate_alias_name, ShellType};
pub use theme::{Theme, ThemeStyle};
