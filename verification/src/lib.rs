//! Query engine for a directory-based experiment-tracking repository:
//! a data model for experiment records, field resolution across parameter
//! and checkpoint-metric maps, an equality filter language, and a catalog
//! that loads records and applies filters.

pub mod catalog;
pub mod error;
pub mod filter;
pub mod jsonffi;
pub mod loader;
pub mod record;
pub mod strutil;
pub mod value;
