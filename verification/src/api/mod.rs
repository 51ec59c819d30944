pub mod github;
pub mod gitlab;
pub mod jenkins;
pub mod traits;

pub use traits::{LogEntry, RetryPolicy};
