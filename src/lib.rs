//! Client library for the Okaeri web services: resolving endpoint
//! configuration, describing requests and classifying their outcomes.
pub mod decimal;
pub mod env;
pub mod error;
pub mod timeout;
pub mod client;
pub mod aicensor;
pub mod noproxy;
pub mod laws;
