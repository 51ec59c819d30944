pub mod dashboard;
pub mod theme;

pub use theme::{StyleSpec, Theme, ThemeColor};
pub mod panels;
