//! Verified core of an uploader for S3-compatible object stores: chunk
//! planning, the multipart session state machine, and the engine that tracks
//! tasks, statuses and concurrency slots.
pub mod chunking;
pub mod engine;
pub mod files;
pub mod multipart;
pub mod registry;
pub mod store;
pub mod types;
