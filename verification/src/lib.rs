//! Session protocol engine for a StoreFront-style application gateway.
//!
//! The library is organised around a verified model of the portal's
//! sixteen-exchange login pipeline: text extraction primitives that read
//! navigation targets out of semi-structured response bodies and headers,
//! a session state record threaded through the exchanges, the engine that
//! turns each response into the next request, catalog resolution, and
//! artifact validation.  Network transport, credential entry, settings
//! storage and artifact launching are left to the surrounding program,
//! which drives the engine one exchange at a time.

pub mod catalog;
pub mod codec;
pub mod engine;
pub mod extract;
pub mod headers;
pub mod json;
pub mod logline;
pub mod http;
pub mod scan;
pub mod settings;
pub mod text;
pub mod urls;
