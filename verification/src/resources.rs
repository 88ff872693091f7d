//! Resources: named parts of a URI path that can carry an argument, be linked
//! into a chain and be composed into a path.

pub mod errors;
pub mod laws;
pub mod model;
pub mod node;
pub mod requirement;
pub mod segment;
pub mod traits;

pub use errors::{ArgError, ArgErrorView, ResourceError, ResourceErrorView};
pub use model::ResourceView;
pub use node::ApiResource;
pub use requirement::ArgRequiredBy;
pub use traits::{
    ArgedResource, CoreResource, LinkedResource, PathComponent, Resource, WeightedResource,
};
