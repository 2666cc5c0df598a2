//! Client for the Twelve point-of-sale REST API: signed request headers and
//! the query paths of its endpoints.
pub mod client;
pub mod headers;
pub mod outside;
pub mod products;
pub mod text;
pub mod token;

pub use client::TwelveClient;
pub use headers::{headermap, HeaderError};
