//! Core business rules and domain models.
pub mod common;
pub mod video;
pub mod streaming;
pub mod video_creation;
