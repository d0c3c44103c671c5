//! Import and enrichment pipeline for GPS activity files: content
//! fingerprints, staging of decoded messages as table rows, elevation
//! back-fill planning, the polyline codec and a small query builder.
//!
//! The library computes and decides; it performs no input or output. A
//! caller reads the file, hands over its bytes, and carries out what the
//! library plans against its store and its providers.

pub mod cli;
pub mod config;
pub mod db;
pub mod elevation;
pub mod epo;
pub mod error;
pub mod fit;
pub mod gps;
pub mod identity;
pub mod import;
pub mod services;
pub mod text;

pub use config::Config;
pub use error::Error;
pub use identity::generate_uuid;
pub use import::{import_fit_data, FileInfo};
