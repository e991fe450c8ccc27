//! Verified core of a terminal script launcher: the script catalogue, the
//! description parser, the view-state machine and the run report.

pub mod app;
pub mod input;
pub mod layout;
pub mod panes;
pub mod report;
pub mod scan;
pub mod script;
pub mod text;

pub use app::App;
pub use app::AppView;
pub use app::Screen;
pub use input::Action;
pub use input::ActionView;
pub use input::Key;
pub use report::RunOutput;
pub use scan::is_executable;
pub use scan::scan_directory;
pub use scan::script_from_file;
pub use scan::DirectoryEntry;
pub use scan::Entry;
pub use scan::FileEntry;
pub use scan::Unreadable;
pub use script::extract_description;
pub use script::scan_line;
pub use script::LineScan;
pub use script::LineScanView;
pub use script::Script;
pub use script::ScriptView;
