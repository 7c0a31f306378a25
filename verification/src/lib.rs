//! Collections of assets with JSON metadata, kept under content hashes.
pub mod hashing;
pub mod json;
pub mod scale;
pub mod store;
pub mod types;
pub mod pallet;
pub mod item_counts;
pub mod laws;
pub mod encoding_laws;
pub mod call_laws;
