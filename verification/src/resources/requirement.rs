//! Who owes a resource its argument.

use vstd::prelude::*;

verus! {

/// Who has to see to it that a resource carries an argument when it is
/// composed.
#[derive(Clone, Copy, Debug, PartialEq, Eq, Structural)]
pub enum ArgRequiredBy {
    /// The child of the resource.
    Child,
    /// The resource itself.
    Me,
    /// No one: the resource may go without an argument.
    NoOne,
    /// The parent of the resource.
    Parent,
}

impl ArgRequiredBy {
    /// Whether it is the child.
    pub fn is_child(self) -> (r: bool)
        ensures
            r == (self is Child),
    {
        matches!(self, Self::Child)
    }

    /// Whether it is the resource itself.
    pub fn is_me(self) -> (r: bool)
        ensures
            r == (self is Me),
    {
        matches!(self, Self::Me)
    }

    /// Whether it is no one.
    pub fn is_noone(self) -> (r: bool)
        ensures
            r == (self is NoOne),
    {
        matches!(self, Self::NoOne)
    }

    /// Whether it is the parent.
    pub fn is_parent(self) -> (r: bool)
        ensures
            r == (self is Parent),
    {
        matches!(self, Self::Parent)
    }
}

} // verus!
