//! A relay that forwards chat requests to a generative-language API:
//! it wraps an incoming prompt or conversation into the upstream request
//! body, and extracts the answer text from the upstream response.
//!
//! The library holds the whole decision logic of the relay; the JSON
//! documents it works on are modeled by [`json::Json`], a tree of plain
//! values. The HTTP plumbing around it lives outside the library and
//! hands values of that tree in and out.

pub mod extract;
pub mod json;
pub mod relay;
pub mod request;
