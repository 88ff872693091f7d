//! The mathematical model of a resource and of the operations on it.

use crate::resources::errors::{ArgError, ArgErrorView, ResourceErrorView};
use crate::resources::requirement::ArgRequiredBy;
use crate::text::{collapse_slashes, join};
use std::fmt::Display;
use vstd::prelude::*;
use vstd::string::to_string_from_display_ensures;

verus! {

/// A resource as a value: its own data, and the copies of its relatives that
/// it holds.
pub ghost struct ResourceView<T, V> {
    /// The text of the path segment before the slash.
    pub name: Seq<char>,
    /// The argument, whose text follows the slash.
    pub arg: Option<T>,
    /// Who has to see to it that there is an argument.
    pub required_by: ArgRequiredBy,
    /// What judges the argument, in the order in which it does.
    pub validators: Seq<V>,
    /// The weight, as the bit pattern of a single-precision number. The
    /// resource carries it and makes nothing of it.
    pub weight: u32,
    /// The copy of the child.
    pub child: Option<Box<ResourceView<T, V>>>,
    /// The copy of the parent.
    pub parent: Option<Box<ResourceView<T, V>>>,
}

/// What composing one resource, or a chain of them, gives: the text, or the
/// error.
pub type Composed = Result<Seq<char>, ArgErrorView>;

/// What a composition gave, as plain text.
pub open spec fn composed_view(res: Result<String, ArgError>) -> Composed {
    match res {
        Ok(text) => Ok(text@),
        Err(e) => Err(e@),
    }
}

/// The path segment of a resource: its name, a slash, and the text of its
/// argument.
pub open spec fn segment(name: Seq<char>, arg_text: Seq<char>) -> Seq<char> {
    name + seq!['/'] + arg_text
}

/// The reasons of the rejections among `outcomes`, in their order.
pub open spec fn rejections(outcomes: Seq<Result<(), String>>) -> Seq<Seq<char>>
    decreases outcomes.len(),
{
    if outcomes.len() == 0 {
        Seq::empty()
    } else {
        let before = rejections(outcomes.drop_last());
        match outcomes.last() {
            Ok(_) => before,
            Err(reason) => before.push(reason@),
        }
    }
}

/// What the outcomes of its validators make of a resource named `name`: the
/// rejection with every reason, in the validators' order, where there is one;
/// else the start of its segment, the name and the slash.
pub open spec fn judged(name: Seq<char>, outcomes: Seq<Result<(), String>>) -> Composed {
    if rejections(outcomes).len() > 0 {
        Err(ArgErrorView::NotValid(name, rejections(outcomes)))
    } else {
        Ok(segment(name, Seq::empty()))
    }
}

impl<T, V> ResourceView<T, V> {
    /// A resource as `new` makes it: no argument that anyone requires, no
    /// validators, no relatives.
    pub open spec fn fresh(name: Seq<char>) -> Self {
        ResourceView {
            name,
            arg: None,
            required_by: ArgRequiredBy::NoOne,
            validators: Seq::empty(),
            weight: 0,
            child: None,
            parent: None,
        }
    }

    /// Whether the resource has no parent.
    pub open spec fn is_root(self) -> bool {
        self.parent is None
    }

    /// Whether the resource has a parent.
    pub open spec fn is_child(self) -> bool {
        self.parent is Some
    }

    /// Whether the resource has no child.
    pub open spec fn is_tail(self) -> bool {
        self.child is None
    }

    /// The resource with `parent` as its parent; refused where it has one.
    pub open spec fn attach_parent(self, parent: Self) -> Result<Self, ResourceErrorView> {
        if self.parent is Some {
            Err(ResourceErrorView::AlreadySet(self.name, "parent"@))
        } else {
            Ok(ResourceView { parent: Some(Box::new(parent)), ..self })
        }
    }

    /// The resource with `child` as its child, where the child it holds has
    /// the resource, as it was before, as its parent. Refused where the
    /// resource has a child, and then where `child` has a parent.
    pub open spec fn attach_child(self, child: Self) -> Result<Self, ResourceErrorView> {
        if self.child is Some {
            Err(ResourceErrorView::AlreadySet(self.name, "child"@))
        } else {
            match child.attach_parent(self) {
                Err(e) => Err(e),
                Ok(linked) => Ok(ResourceView { child: Some(Box::new(linked)), ..self }),
            }
        }
    }

    /// The resource, its child, the child of that one, and so on to the tail.
    pub open spec fn chain(self) -> Seq<Self>
        decreases self,
    {
        match self.child {
            None => seq![self],
            Some(c) => seq![self] + c.chain(),
        }
    }

    /// The name of the relative that was to see to the absent argument of
    /// this resource, if there is such a relative.
    pub open spec fn blocked_by(self) -> Option<Seq<char>> {
        if self.arg is Some || self.required_by is NoOne {
            None
        } else if self.required_by is Parent && self.parent is Some {
            Some(self.parent->0.name)
        } else if self.required_by is Child && self.child is Some {
            Some(self.child->0.name)
        } else {
            None
        }
    }
}

impl<T: Clone, V> ResourceView<T, V> {
    /// `copy` is what copying this resource may give: the same name,
    /// requirement, validators and weight; the argument, if there is one,
    /// cloned; and copies of the relatives.
    pub open spec fn has_copy(self, copy: Self) -> bool
        decreases self,
    {
        &&& copy.name == self.name
        &&& copy.required_by == self.required_by
        &&& copy.validators == self.validators
        &&& copy.weight == self.weight
        &&& match (self.arg, copy.arg) {
            (Some(a), Some(b)) => cloned::<T>(a, b),
            (None, None) => true,
            _ => false,
        }
        &&& match (self.child, copy.child) {
            (Some(c), Some(d)) => c.has_copy(*d),
            (None, None) => true,
            _ => false,
        }
        &&& match (self.parent, copy.parent) {
            (Some(p), Some(q)) => p.has_copy(*q),
            (None, None) => true,
            _ => false,
        }
    }
}

impl<T: Display, V: Fn(&T) -> Result<(), String>> ResourceView<T, V> {
    /// `outcomes` is what the validators of this resource may return for
    /// `arg`, one outcome for each validator, in their order.
    pub open spec fn may_judge(self, arg: T, outcomes: Seq<Result<(), String>>) -> bool {
        &&& outcomes.len() == self.validators.len()
        &&& forall|i: int|
            0 <= i < outcomes.len() ==> call_ensures(self.validators[i], (&arg,), #[trigger] outcomes[i])
    }

    /// `result` is what composing this resource may give once the validators
    /// have returned `outcomes` for its argument `arg`: the rejection with
    /// all reasons where there is one, else the segment with a text that
    /// `arg` displays as.
    pub open spec fn may_yield_after(
        self,
        arg: T,
        outcomes: Seq<Result<(), String>>,
        result: Composed,
    ) -> bool {
        match judged(self.name, outcomes) {
            Err(e) => result == Err::<Seq<char>, ArgErrorView>(e),
            Ok(start) => exists|text: String| #[trigger]
                to_string_from_display_ensures::<T>(&arg, text) && result == Ok::<
                    Seq<char>,
                    ArgErrorView,
                >(start + text@),
        }
    }

    /// `result` is what composing this resource alone may give.
    ///
    /// A relative that was to see to the absent argument gives `Missing` with
    /// its name. Else, without an argument the segment ends with the slash and
    /// no validator runs; with an argument every validator runs on it.
    pub open spec fn may_yield(self, result: Composed) -> bool {
        match self.blocked_by() {
            Some(relative) => result == Err::<Seq<char>, ArgErrorView>(
                ArgErrorView::Missing(relative),
            ),
            None => match self.arg {
                None => result == Ok::<Seq<char>, ArgErrorView>(segment(self.name, Seq::empty())),
                Some(arg) => exists|outcomes: Seq<Result<(), String>>| #[trigger]
                    self.may_judge(arg, outcomes) && self.may_yield_after(arg, outcomes, result),
            },
        }
    }
}

/// `steps` is a walk along `nodes`: one result for each resource from the
/// first on, each one that the resource may give, which ends at the first
/// error or, without one, at the last resource.
pub open spec fn is_walk<T: Display, V: Fn(&T) -> Result<(), String>>(
    nodes: Seq<ResourceView<T, V>>,
    steps: Seq<Composed>,
) -> bool {
    &&& 0 < steps.len() <= nodes.len()
    &&& forall|i: int| 0 <= i < steps.len() ==> nodes[i].may_yield(#[trigger] steps[i])
    &&& forall|i: int| 0 <= i < steps.len() - 1 ==> (#[trigger] steps[i]) is Ok
    &&& steps.last() is Ok ==> steps.len() == nodes.len()
}

/// The segments of the steps of a walk.
pub open spec fn segments(steps: Seq<Composed>) -> Seq<Seq<char>> {
    steps.map_values(
        |step: Composed|
            match step {
                Ok(text) => text,
                Err(_) => Seq::empty(),
            },
    )
}

/// What a walk gives: the error at which it ended, else its segments joined
/// with slashes, after one pass that collapses doubled slashes.
pub open spec fn walk_result(steps: Seq<Composed>) -> Composed {
    match steps.last() {
        Err(e) => Err(e),
        Ok(_) => Ok(collapse_slashes(join(segments(steps), seq!['/']))),
    }
}

} // verus!
