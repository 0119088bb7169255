//! Batch image-compression pipeline: settings validation, codec dispatch
//! planning, output-path derivation, progress events, and result aggregation,
//! all with verified contracts. Disk and codec work is performed by the host
//! through the engine's step interface.

pub mod compression;
pub mod file;
pub mod text;
pub mod ui;
