//! Cross-cutting helpers: configuration, errors of the streaming
//! service, text rendering, clock and path probes.
pub mod text;
pub mod clock;
pub mod paths;
pub mod config;
pub mod error;
