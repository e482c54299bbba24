//! Typed client core for a message broker's HTTP management API.
//!
//! The verified heart of the crate is the response normalizer
//! ([`api::generic`]), which turns a raw HTTP outcome into either a decoded
//! value or a classified [`errors::RabbitMqClientError`], and the request
//! options model ([`api::options`]), which translates pagination, filtering
//! and sorting intent into the query parameters the broker expects.

pub mod api;
pub mod config;
pub mod errors;
