//! In-memory stores, the orchestration of the external encoder, and the
//! reading and writing of what goes over HTTP.
pub mod ffmpeg;
pub mod repositories;
pub mod services;
pub mod http;
