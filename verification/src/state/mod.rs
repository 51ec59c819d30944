pub mod app_state;

pub use app_state::{AppState, ErrorEntry, SourceStatus, StatusSummary};
