pub mod pipeline;
pub mod stage;

pub use pipeline::{Pipeline, PipelineStatus};
pub use stage::{Stage, StageStatus};
