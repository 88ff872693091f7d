//! Building URI paths out of linked, named resources, and whole URIs out of
//! weighted path segments, parameters and a scheme.

pub mod resources;
pub mod routes;
pub mod text;
pub mod uri;
pub mod weight;

pub use routes::{ApiRouteBuilder, ApiRoutePath, RouteBuilder, RouteError};
