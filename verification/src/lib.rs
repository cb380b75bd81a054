//! URL and header resolution for a flight-tracking web service client.
//!
//! The crate turns a logical request into the exact URL to fetch and builds
//! the header set that goes with it. It performs no I/O of its own.

pub mod api;
pub mod decimal;
pub mod headers;
pub mod percent;
pub mod resolver;
pub mod text;

pub use api::Core;
pub use headers::{header_profile, ProfileKind};
pub use resolver::{BaseAddresses, Endpoint, Parameter, ResolveError};
