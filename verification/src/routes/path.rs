//! One entry of a route's path.

use crate::routes::model::PathEntry;
use crate::weight::{same_weight, weights_equal};
use vstd::prelude::*;
use vstd::std_specs::cmp::PartialEqSpecImpl;

verus! {

/// A piece of path text with the weight by which it is ordered among the
/// entries of a route.
#[derive(Debug)]
pub struct ApiRoutePath {
    path: String,
    weight: u32,
}

impl View for ApiRoutePath {
    type V = PathEntry;

    closed spec fn view(&self) -> PathEntry {
        PathEntry { path: self.path@, weight: self.weight }
    }
}

impl ApiRoutePath {
    /// The entry with text `path` and weight `weight`, as they are given.
    pub fn new<'a>(path: &'a str, weight: u32) -> (res: Self)
        ensures
            res@ == (PathEntry { path: path@, weight }),
    {
        ApiRoutePath { path: path.to_owned(), weight }
    }

    /// The weight of the entry.
    pub fn weight(&self) -> (res: u32)
        ensures
            res == self@.weight,
    {
        self.weight
    }

    /// Whether the text of the entry is empty.
    pub fn is_empty(&self) -> (res: bool)
        ensures
            res == (self@.path.len() == 0),
    {
        self.path.as_str().is_empty()
    }

    /// The text of the entry.
    pub fn to_string(&self) -> (res: String)
        ensures
            res@ == self@.path,
    {
        self.path.clone()
    }
}

impl Clone for ApiRoutePath {
    fn clone(&self) -> (res: Self)
        ensures
            res@ == self@,
    {
        ApiRoutePath { path: self.path.clone(), weight: self.weight }
    }
}

impl PartialEq for ApiRoutePath {
    /// Two entries are equal where both their weights and their texts are.
    fn eq(&self, other: &Self) -> (res: bool) {
        weights_equal(self.weight, other.weight) && self.path == other.path
    }
}

impl PartialEqSpecImpl for ApiRoutePath {
    open spec fn obeys_eq_spec() -> bool {
        true
    }

    open spec fn eq_spec(&self, other: &Self) -> bool {
        same_weight(self@.weight, other@.weight) && self@.path == other@.path
    }
}

impl Eq for ApiRoutePath {

}

} // verus!
