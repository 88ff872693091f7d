//! The resource itself.

use crate::resources::errors::{ArgError, ArgErrorView, ResourceError};
use crate::resources::requirement::ArgRequiredBy;
use crate::resources::laws::lemma_chain_starts_with_self;
use crate::resources::model::{
    composed_view,
    is_walk,
    rejections,
    segment,
    segments,
    walk_result,
    Composed,
    ResourceView,
};
use crate::resources::segment::{compose_segments, segment_after};
use crate::resources::traits::{
    ArgedResource,
    CoreResource,
    LinkedResource,
    PathComponent,
    Resource,
    WeightedResource,
};
use crate::text::texts;
use std::fmt::Display;
use vstd::prelude::*;

verus! {

/// One part of a URI path: a name, and optionally an argument that follows
/// it. `T` is the type of the argument, `V` that of the validators that
/// judge it.
///
/// A resource holds copies of its relatives: linking two resources makes a
/// new value and leaves both as they were.
#[derive(Debug)]
pub struct ApiResource<
    'a,
    T: Display,
    V: Copy + Fn(&T) -> Result<(), String> = fn(&T) -> Result<(), String>,
> {
    name: &'a str,
    arg: Option<T>,
    arg_required_by: ArgRequiredBy,
    arg_validators: Vec<V>,
    child: Option<Box<ApiResource<'a, T, V>>>,
    parent: Option<Box<ApiResource<'a, T, V>>>,
    weight: u32,
}

impl<'a, T: Display, V: Copy + Fn(&T) -> Result<(), String>> View for ApiResource<'a, T, V> {
    type V = ResourceView<T, V>;

    closed spec fn view(&self) -> ResourceView<T, V>
        decreases self,
    {
        ResourceView {
            name: self.name@,
            arg: self.arg,
            required_by: self.arg_required_by,
            validators: self.arg_validators@,
            weight: self.weight,
            child: match self.child {
                Some(c) => Some(Box::new((*c).view())),
                None => None,
            },
            parent: match self.parent {
                Some(p) => Some(Box::new((*p).view())),
                None => None,
            },
        }
    }
}

impl<'a, T: Display, V: Copy + Fn(&T) -> Result<(), String>> ApiResource<'a, T, V> {
    /// Every validator can be called on every argument.
    #[verifier::type_invariant]
    spec fn validators_are_total(self) -> bool {
        forall|i: int, arg: T|
            0 <= i < self.arg_validators@.len() ==> #[trigger] call_requires(
                self.arg_validators@[i],
                (&arg,),
            )
    }

    /// A resource named `name`: a root and a tail, without an argument, which
    /// no one requires; without validators; of weight zero.
    pub fn new<'b: 'a>(name: &'b str) -> (res: Self)
        ensures
            res@ == ResourceView::<T, V>::fresh(name@),
    {
        ApiResource {
            name,
            arg: None,
            arg_required_by: ArgRequiredBy::NoOne,
            arg_validators: Vec::new(),
            child: None,
            parent: None,
            weight: 0,
        }
    }

    /// Adds `validator` behind the validators that the resource has.
    pub fn with_validator(&mut self, validator: V) -> (res: &mut Self)
        requires
            forall|arg: T| call_requires(validator, (&arg,)),
        ensures
            (*res)@ == (ResourceView {
                validators: old(self)@.validators.push(validator),
                ..old(self)@
            }),
            *final(self) == *final(res),
    {
        proof {
            use_type_invariant(&*self);
        }
        let mut validators = self.validators();
        validators.push(validator);
        self.arg_validators = validators;
        self
    }

    /// The validators of the resource, in their order.
    fn validators(&self) -> (res: Vec<V>)
        ensures
            res@ == self@.validators,
    {
        let mut validators: Vec<V> = Vec::new();
        let mut i: usize = 0;
        while i < self.arg_validators.len()
            invariant
                i <= self.arg_validators.len(),
                validators@ == self.arg_validators@.take(i as int),
            decreases self.arg_validators.len() - i,
        {
            validators.push(self.arg_validators[i]);
            assert(self.arg_validators@.take(i + 1) == self.arg_validators@.take(i as int).push(
                self.arg_validators@[i as int],
            ));
            i += 1;
        }
        assert(self.arg_validators@.take(i as int) == self.arg_validators@);
        validators
    }
}

impl<'a, T: Display, V: Copy + Fn(&T) -> Result<(), String>> ApiResource<'a, T, V> {
    /// What each validator returns for `arg`, in the validators' order.
    fn judge(&self, arg: &T) -> (res: Vec<Result<(), String>>)
        ensures
            self@.may_judge(*arg, res@),
    {
        proof {
            use_type_invariant(self);
        }
        let mut outcomes: Vec<Result<(), String>> = Vec::new();
        let mut i: usize = 0;
        while i < self.arg_validators.len()
            invariant
                i <= self.arg_validators.len(),
                outcomes.len() == i,
                forall|k: int, x: T|
                    0 <= k < self.arg_validators@.len() ==> #[trigger] call_requires(
                        self.arg_validators@[k],
                        (&x,),
                    ),
                forall|k: int|
                    0 <= k < i ==> call_ensures(
                        self.arg_validators@[k],
                        (arg,),
                        #[trigger] outcomes@[k],
                    ),
            decreases self.arg_validators.len() - i,
        {
            let validator = self.arg_validators[i];
            let outcome = validator(arg);
            outcomes.push(outcome);
            i += 1;
        }
        outcomes
    }

    /// The segment of this resource, once it is settled that no relative owes
    /// it an argument.
    fn compose_this(&self) -> (res: Result<String, ArgError>)
        ensures
            match self@.arg {
                None => composed_view(res) == Ok::<Seq<char>, ArgErrorView>(
                    segment(self@.name, Seq::empty()),
                ),
                Some(arg) => exists|outcomes: Seq<Result<(), String>>| #[trigger]
                    self@.may_judge(arg, outcomes) && self@.may_yield_after(
                        arg,
                        outcomes,
                        composed_view(res),
                    ),
            },
    {
        match &self.arg {
            None => {
                let outcomes: Vec<Result<(), String>> = Vec::new();
                assert(rejections(outcomes@).len() == 0);
                segment_after(self.name, &outcomes)
            },
            Some(arg) => {
                let outcomes = self.judge(arg);
                match segment_after(self.name, &outcomes) {
                    Err(e) => {
                        let res = Err(e);
                        assert(self@.may_yield_after(*arg, outcomes@, composed_view(res)));
                        res
                    },
                    Ok(mut text) => {
                        let shown = arg.to_string();
                        text.append(shown.as_str());
                        let res = Ok(text);
                        assert(text@ == segment(self@.name, shown@));
                        assert(self@.may_yield_after(*arg, outcomes@, composed_view(res)));
                        res
                    },
                }
            },
        }
    }
}

impl<'a, T: Display, V: Copy + Fn(&T) -> Result<(), String>> PathComponent for ApiResource<
    'a,
    T,
    V,
> {
    /// This resource alone as a path segment, `"{name}/{argument}"`.
    ///
    /// With an argument, or where no one requires one, the segment is
    /// composed. Else, where the parent was to see to the argument and there
    /// is a parent, or the child was and there is a child, that relative is
    /// named as missing its part. Else the segment is composed.
    ///
    /// To compose the segment is to run every validator on the argument, if
    /// there is one, and to fail with all reasons if any rejects it; else to
    /// write the name, a slash, and the argument if there is one.
    fn as_path_component(&self) -> (res: Result<String, ArgError>)
        ensures
            self@.may_yield(composed_view(res)),
    {
        if self.arg.is_some() || self.arg_required_by.is_noone() {
            self.compose_this()
        } else if self.arg_required_by.is_parent() && self.parent.is_some() {
            match &self.parent {
                Some(parent) => {
                    assert(parent@.name == parent.name@);
                    Err(ArgError::Missing(parent.name.to_owned()))
                },
                None => self.compose_this(),
            }
        } else if self.arg_required_by.is_child() && self.child.is_some() {
            match &self.child {
                Some(child) => {
                    assert(child@.name == child.name@);
                    Err(ArgError::Missing(child.name.to_owned()))
                },
                None => self.compose_this(),
            }
        } else {
            self.compose_this()
        }
    }

    /// The path of the chain that starts at this resource.
    ///
    /// Each resource from this one on, child after child, gives its segment.
    /// The first that fails ends the walk with its error. Else the segments
    /// are joined with slashes, and one pass collapses doubled slashes. The
    /// walk never looks at a parent.
    fn compose(&self) -> (res: Result<String, ArgError>)
        ensures
            exists|steps: Seq<Composed>| #[trigger]
                is_walk(self@.chain(), steps) && composed_view(res) == walk_result(steps),
    {
        let mut curr: &Self = self;
        let mut components: Vec<String> = Vec::new();
        let ghost mut steps: Seq<Composed> = Seq::empty();
        loop
            invariant_except_break
                steps.len() + curr@.chain().len() == self@.chain().len(),
                self@.chain().skip(steps.len() as int) == curr@.chain(),
            invariant
                steps.len() == components.len(),
                forall|i: int|
                    0 <= i < steps.len() ==> self@.chain()[i].may_yield(#[trigger] steps[i]),
                steps == texts(components@).map_values(
                    |text: Seq<char>| Ok::<Seq<char>, ArgErrorView>(text),
                ),
            ensures
                steps.len() == self@.chain().len(),
                steps.len() > 0,
            decreases curr@.chain().len(),
        {
            proof {
                lemma_chain_starts_with_self(curr@);
                assert(self@.chain()[steps.len() as int] == curr@.chain()[0]);
            }
            match curr.as_path_component() {
                Ok(path) => {
                    let ghost before = components@;
                    components.push(path);
                    proof {
                        steps = steps.push(Ok(path@));
                        assert(texts(components@) == texts(before).push(path@));
                    }
                },
                Err(e) => {
                    proof {
                        steps = steps.push(Err(e@));
                        assert(is_walk(self@.chain(), steps));
                    }
                    return Err(e);
                },
            }
            match &curr.child {
                Some(next) => {
                    proof {
                        assert(*curr@.child->0 == next@);
                        assert(curr@.chain().skip(1) == next@.chain());
                        assert(self@.chain().skip(steps.len() as int) == self@.chain().skip(
                            steps.len() - 1,
                        ).skip(1));
                    }
                    curr = &**next;
                },
                None => {
                    break ;
                },
            }
        }
        let path = compose_segments(&components);
        proof {
            assert(segments(steps) == texts(components@));
            assert(is_walk(self@.chain(), steps));
        }
        Ok(path)
    }
}

impl<'a, T: Clone + Display, V: Copy + Fn(&T) -> Result<(), String>> Clone for ApiResource<
    'a,
    T,
    V,
> {
    /// A copy of the resource and of the relatives that it holds, each
    /// argument cloned once.
    fn clone(&self) -> (res: Self)
        ensures
            self@.has_copy(res@),
        decreases self,
    {
        proof {
            use_type_invariant(self);
        }
        let arg = match &self.arg {
            Some(a) => Some(a.clone()),
            None => None,
        };
        let child = match &self.child {
            Some(c) => Some(Box::new((&**c).clone())),
            None => None,
        };
        let parent = match &self.parent {
            Some(p) => Some(Box::new((&**p).clone())),
            None => None,
        };
        ApiResource {
            name: self.name,
            arg,
            arg_required_by: self.arg_required_by,
            arg_validators: self.validators(),
            child,
            parent,
            weight: self.weight,
        }
    }
}

impl<'a, T: Clone + Display, V: Copy + Fn(&T) -> Result<(), String>> LinkedResource<
    'a,
    T,
> for ApiResource<'a, T, V> {
    fn child(&self) -> (res: Option<&Self>)
        ensures
            res is Some <==> self@.child is Some,
            res matches Some(c) ==> c@ == *self@.child->0,
    {
        match &self.child {
            Some(c) => Some(&**c),
            None => None,
        }
    }

    fn parent(&self) -> (res: Option<&Self>)
        ensures
            res is Some <==> self@.parent is Some,
            res matches Some(p) ==> p@ == *self@.parent->0,
    {
        match &self.parent {
            Some(p) => Some(&**p),
            None => None,
        }
    }

    fn is_child(&self) -> (res: bool)
        ensures
            res == self@.is_child(),
    {
        self.parent.is_some()
    }

    fn is_root(&self) -> (res: bool)
        ensures
            res == self@.is_root(),
    {
        self.parent.is_none()
    }

    fn is_tail(&self) -> (res: bool)
        ensures
            res == self@.is_tail(),
    {
        self.child.is_none()
    }

    /// Links a copy of `child` below a copy of this resource.
    ///
    /// Fails with `AlreadySet` for this resource and `"child"` where it has
    /// a child, and else with `AlreadySet` for `child` and `"parent"` where
    /// `child` has a parent. Else the result is a copy of this resource whose
    /// child is a copy of `child`, which in turn has a copy of this resource,
    /// as it was given, as its parent. Neither this resource nor `child`
    /// changes.
    fn with_child(&self, child: &Self) -> (res: Result<Box<Self>, ResourceError>)
        ensures
            match self@.attach_child(child@) {
                Ok(linked) => res matches Ok(node) && linked.has_copy(node@),
                Err(e) => res matches Err(err) && err@ == e,
            },
    {
        proof {
            reveal_strlit("child");
        }
        match &self.child {
            None => {
                match child.with_parent(self) {
                    Ok(linked) => {
                        let mut node = self.clone();
                        proof {
                            use_type_invariant(&node);
                        }
                        node.child = Some(linked);
                        Ok(Box::new(node))
                    },
                    Err(e) => Err(e),
                }
            },
            Some(_) => Err(ResourceError::AlreadySet(self.name.to_owned(), "child".to_owned())),
        }
    }

    /// Links a copy of `parent` above a copy of this resource.
    ///
    /// Fails with `AlreadySet` for this resource and `"parent"` where it has
    /// a parent. Else the result is a copy of this resource whose parent is a
    /// copy of `parent`. Neither this resource nor `parent` changes.
    fn with_parent(&self, parent: &Self) -> (res: Result<Box<Self>, ResourceError>)
        ensures
            match self@.attach_parent(parent@) {
                Ok(linked) => res matches Ok(node) && linked.has_copy(node@),
                Err(e) => res matches Err(err) && err@ == e,
            },
    {
        proof {
            reveal_strlit("parent");
        }
        match &self.parent {
            None => {
                let mut node = self.clone();
                proof {
                    use_type_invariant(&node);
                }
                node.parent = Some(Box::new(parent.clone()));
                Ok(Box::new(node))
            },
            Some(_) => Err(ResourceError::AlreadySet(self.name.to_owned(), "parent".to_owned())),
        }
    }
}

impl<'a, T: Clone + Display, V: Copy + Fn(&T) -> Result<(), String>> ArgedResource<
    T,
> for ApiResource<'a, T, V> {
    fn argument(&self) -> (res: Option<&T>)
        ensures
            res is Some <==> self@.arg is Some,
            res matches Some(arg) ==> *arg == self@.arg->0,
    {
        self.arg.as_ref()
    }

    fn required_by(&self) -> (res: ArgRequiredBy)
        ensures
            res == self@.required_by,
    {
        self.arg_required_by
    }

    fn with_arg(&mut self, arg: T) -> (res: &mut Self)
        ensures
            (*res)@ == (ResourceView { arg: Some(arg), ..old(self)@ }),
            *final(self) == *final(res),
    {
        proof {
            use_type_invariant(&*self);
        }
        self.arg = Some(arg);
        self
    }

    fn with_arg_required(&mut self, required: ArgRequiredBy) -> (res: &mut Self)
        ensures
            (*res)@ == (ResourceView { required_by: required, ..old(self)@ }),
            *final(self) == *final(res),
    {
        proof {
            use_type_invariant(&*self);
        }
        self.arg_required_by = required;
        self
    }
}

impl<'a, T: Clone + Display, V: Copy + Fn(&T) -> Result<(), String>> CoreResource<
    T,
> for ApiResource<'a, T, V> {
    fn name(&self) -> (res: String)
        ensures
            res@ == self@.name,
    {
        self.name.to_owned()
    }
}

impl<'a, T: Display, V: Copy + Fn(&T) -> Result<(), String>> WeightedResource for ApiResource<
    'a,
    T,
    V,
> {
    fn weight(&self) -> (res: u32)
        ensures
            res == self@.weight,
    {
        self.weight
    }

    fn with_weight(&mut self, weight: u32) -> (res: &Self)
        ensures
            res@ == (ResourceView { weight, ..old(self)@ }),
            *final(self) == *res,
    {
        proof {
            use_type_invariant(&*self);
        }
        self.weight = weight;
        self
    }
}

impl<'a, T: Clone + Display, V: Copy + Fn(&T) -> Result<(), String>> Resource<
    'a,
    T,
> for ApiResource<'a, T, V> {

}

} // verus!
