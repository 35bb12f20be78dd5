//! Convenient re-exports for consumers of the plugin.

pub use crate::vec_arrow::VecArrow;
pub use crate::BevyArrowsPlugin;
