pub mod error;
pub mod time;

pub use error::{ApiError, ArgusError, ConfigError, Result, ResultExt, UiError};
