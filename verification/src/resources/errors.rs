//! What can go wrong with resources.

use crate::text::texts;
use vstd::prelude::*;

verus! {

/// Why a resource could not be composed.
#[derive(Debug, PartialEq, Eq)]
pub enum ArgError {
    /// The named resource was to see to an argument that is absent.
    Missing(String),
    /// The named resource carries an argument that validators rejected, with
    /// every reason they gave, in the validators' order.
    NotValid(String, Vec<String>),
}

/// Why two resources could not be linked.
#[derive(Debug, PartialEq, Eq)]
pub enum ResourceError {
    /// The named resource already has the relative of the given kind
    /// (`"parent"` or `"child"`).
    AlreadySet(String, String),
}

/// What an `ArgError` says, as plain text.
pub ghost enum ArgErrorView {
    Missing(Seq<char>),
    NotValid(Seq<char>, Seq<Seq<char>>),
}

/// What a `ResourceError` says, as plain text.
pub ghost enum ResourceErrorView {
    AlreadySet(Seq<char>, Seq<char>),
}

impl View for ArgError {
    type V = ArgErrorView;

    open spec fn view(&self) -> ArgErrorView {
        match self {
            ArgError::Missing(name) => ArgErrorView::Missing(name@),
            ArgError::NotValid(name, reasons) => ArgErrorView::NotValid(name@, texts(reasons@)),
        }
    }
}

impl View for ResourceError {
    type V = ResourceErrorView;

    open spec fn view(&self) -> ResourceErrorView {
        match self {
            ResourceError::AlreadySet(name, relation) => ResourceErrorView::AlreadySet(
                name@,
                relation@,
            ),
        }
    }
}

impl Clone for ArgError {
    fn clone(&self) -> (res: Self)
        ensures
            res@ == self@,
    {
        match self {
            ArgError::Missing(name) => ArgError::Missing(name.clone()),
            ArgError::NotValid(name, reasons) => {
                let mut copied: Vec<String> = Vec::new();
                let mut i: usize = 0;
                while i < reasons.len()
                    invariant
                        i <= reasons.len(),
                        texts(copied@) == texts(reasons@).take(i as int),
                    decreases reasons.len() - i,
                {
                    let ghost before = copied@;
                    copied.push(reasons[i].clone());
                    assert(texts(copied@) == texts(before).push(reasons@[i as int]@));
                    assert(texts(reasons@).take(i + 1) == texts(reasons@).take(i as int).push(
                        reasons@[i as int]@,
                    ));
                    i += 1;
                }
                assert(texts(reasons@).take(i as int) == texts(reasons@));
                ArgError::NotValid(name.clone(), copied)
            },
        }
    }
}

impl Clone for ResourceError {
    fn clone(&self) -> (res: Self)
        ensures
            res@ == self@,
    {
        match self {
            ResourceError::AlreadySet(name, relation) => ResourceError::AlreadySet(
                name.clone(),
                relation.clone(),
            ),
        }
    }
}

} // verus!
