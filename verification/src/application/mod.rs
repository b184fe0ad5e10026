//! Requests, responses and the use cases that connect them to the
//! domain.
pub mod dto;
pub mod use_cases;
pub mod services;
