//! A client core for a rate-limited game-statistics REST service: platform
//! and routing-cluster names, request URLs, the two-bucket admission gate,
//! and typed decoding of the service's JSON answers.

pub mod client;
pub mod dto;
pub mod error;
pub mod gate;
pub mod json;
pub mod region;
pub mod riot_id;
