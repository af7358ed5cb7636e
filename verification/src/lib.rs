//! Verified planning logic of a small Vulkan renderer: shader asset import,
//! render-pass and pipeline description planning, and the renderer's
//! frame and asset-loading decisions.

pub mod importer;
pub mod pipeline_description;
pub mod renderer;
