pub mod algorithm;
pub mod digests;
pub mod error;
pub mod key;
pub mod public_key;
pub mod random;
pub mod sink;
pub mod types;
