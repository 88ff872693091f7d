//! What a resource can do, by capability.

use crate::resources::errors::{ArgError, ResourceError};
use crate::resources::requirement::ArgRequiredBy;
use std::fmt::Display;
use vstd::prelude::*;

verus! {

/// Something that can be written as part of a path.
pub trait PathComponent {
    /// This alone as a path segment.
    fn as_path_component(&self) -> Result<String, ArgError>;

    /// This and what follows it, composed into one path.
    fn compose(&self) -> Result<String, ArgError>;
}

/// Something that can carry an argument.
pub trait ArgedResource<T> {
    /// The argument, if one is set.
    fn argument(&self) -> Option<&T>;

    /// Who has to see to it that the argument is set.
    fn required_by(&self) -> ArgRequiredBy;

    /// Sets the argument.
    fn with_arg(&mut self, arg: T) -> &mut Self;

    /// Sets who has to see to it that the argument is set.
    fn with_arg_required(&mut self, required: ArgRequiredBy) -> &mut Self;
}

/// Something with a name.
pub trait CoreResource<T> {
    /// The name, which is the text of the path segment before the slash.
    fn name(&self) -> String;
}

/// Something that can have one parent and one child of its own kind.
pub trait LinkedResource<'a, T: Display>: Sized {
    /// The child, if there is one.
    fn child(&self) -> Option<&Self>;

    /// The parent, if there is one.
    fn parent(&self) -> Option<&Self>;

    /// Whether this has a parent.
    fn is_child(&self) -> bool;

    /// Whether this has no parent.
    fn is_root(&self) -> bool;

    /// Whether this has no child.
    fn is_tail(&self) -> bool;

    /// A copy of this with a copy of `child` as its child. Fails where this
    /// has a child already, or `child` a parent.
    fn with_child(&self, child: &Self) -> Result<Box<Self>, ResourceError>;

    /// A copy of this with a copy of `parent` as its parent. Fails where this
    /// has a parent already.
    fn with_parent(&self, parent: &Self) -> Result<Box<Self>, ResourceError>;
}

/// Something that carries a weight by which others may order it.
pub trait WeightedResource {
    /// The weight.
    fn weight(&self) -> u32;

    /// Sets the weight.
    fn with_weight(&mut self, weight: u32) -> &Self;
}

/// Everything that a resource is.
pub trait Resource<'a, T: Clone + Display>: CoreResource<T> + ArgedResource<T> + LinkedResource<
    'a,
    T,
> + WeightedResource {

}

} // verus!
