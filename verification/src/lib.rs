//! Video streaming and image-to-video job orchestration.
//!
//! The crate is organised in layers: `domain` holds the value objects, the
//! job and session state machines and the repository interfaces;
//! `application` holds request/response records and the use cases built on
//! the domain; `infrastructure` holds the in-memory repositories and the
//! encoder orchestration; `shared` holds configuration and text helpers.
//!
//! Outside work (running the encoder, touching files, reading the
//! environment) is left to the caller: a conversion is a state machine
//! that asks for one piece of outside work at a time and is told what it
//! came to.
pub mod shared;
pub mod domain;
pub mod infrastructure;
pub mod application;

pub use application::services::{
    SessionManagementAppService, VideoCreationAppService, VideoStreamingAppService,
};
pub use domain::video::{
    format_content_range, infer_content_type, parse_range_header, validate_range, RangeParser,
    RangeRequest, Video, VideoChunk, VideoId, VideoInfo, VideoMetadata, VideoRepository,
    VideoStreamingService,
};
pub use shared::config::Config;
