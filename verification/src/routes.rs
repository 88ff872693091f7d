//! Routes: a host, weighted path entries, parameters and a scheme, built
//! into a URI.

pub mod builder;
pub mod errors;
pub mod laws;
pub mod model;
pub mod path;

pub use builder::{ApiRouteBuilder, RouteBuilder};
pub use errors::RouteError;
pub use model::{PathEntry, RouteView};
pub use path::ApiRoutePath;
