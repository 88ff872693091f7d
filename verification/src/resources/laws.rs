//! What holds of resources whatever their names, arguments and validators.

use crate::resources::errors::{ArgErrorView, ResourceErrorView};
use crate::resources::model::{
    is_walk,
    rejections,
    segment,
    segments,
    walk_result,
    Composed,
    ResourceView,
};
use crate::text::{collapse_slashes, join};
use std::fmt::Display;
use vstd::prelude::*;
use vstd::string::to_string_from_display_ensures;

verus! {

/// A resource as it is made is a root and a tail at once, and has no
/// argument.
pub proof fn lemma_fresh_is_root_and_tail<T, V>(name: Seq<char>)
    ensures
        ResourceView::<T, V>::fresh(name).is_root(),
        ResourceView::<T, V>::fresh(name).is_tail(),
        !ResourceView::<T, V>::fresh(name).is_child(),
        ResourceView::<T, V>::fresh(name).arg is None,
{
}

/// Attaching a child succeeds exactly where the parent is a tail and the
/// child a root. The copy of the parent that comes out is no tail, and is a
/// root as the parent was; the copy of the child that it holds is a child and
/// no root, is a tail as the child was, and holds a copy of the parent.
pub proof fn lemma_attach_child_links_copies<T: Clone, V>(
    parent: ResourceView<T, V>,
    child: ResourceView<T, V>,
    node: ResourceView<T, V>,
)
    requires
        parent.attach_child(child) matches Ok(linked) && linked.has_copy(node),
    ensures
        parent.is_tail() && child.is_root(),
        !node.is_tail(),
        node.is_root() == parent.is_root(),
        node.name == parent.name,
        node.child matches Some(held) && {
            &&& held.is_child()
            &&& !held.is_root()
            &&& held.is_tail() == child.is_tail()
            &&& held.name == child.name
            &&& held.parent matches Some(above) && parent.has_copy(*above)
        },
{
    let linked = parent.attach_child(child)->Ok_0;
    let held = linked.child->0;
    assert(held.has_copy(*node.child->0));
}

/// Attaching a child is refused exactly where the parent has a child, or
/// else the child has a parent; the error names the one that is no longer
/// free, and the link that it has.
pub proof fn lemma_attach_child_refused<T, V>(parent: ResourceView<T, V>, child: ResourceView<T, V>)
    ensures
        parent.attach_child(child) is Err <==> !parent.is_tail() || !child.is_root(),
        !parent.is_tail() ==> parent.attach_child(child) == Err::<
            ResourceView<T, V>,
            ResourceErrorView,
        >(ResourceErrorView::AlreadySet(parent.name, "child"@)),
        parent.is_tail() && !child.is_root() ==> parent.attach_child(child) == Err::<
            ResourceView<T, V>,
            ResourceErrorView,
        >(ResourceErrorView::AlreadySet(child.name, "parent"@)),
{
}

/// A resource that was given a child takes no second one.
pub proof fn lemma_second_child_refused<T: Clone, V>(
    parent: ResourceView<T, V>,
    first: ResourceView<T, V>,
    node: ResourceView<T, V>,
    second: ResourceView<T, V>,
)
    requires
        parent.attach_child(first) matches Ok(linked) && linked.has_copy(node),
    ensures
        node.attach_child(second) == Err::<ResourceView<T, V>, ResourceErrorView>(
            ResourceErrorView::AlreadySet(parent.name, "child"@),
        ),
{
}

/// A resource that was given a parent takes no second one.
pub proof fn lemma_second_parent_refused<T: Clone, V>(
    child: ResourceView<T, V>,
    first: ResourceView<T, V>,
    node: ResourceView<T, V>,
    second: ResourceView<T, V>,
)
    requires
        child.attach_parent(first) matches Ok(linked) && linked.has_copy(node),
    ensures
        node.attach_parent(second) == Err::<ResourceView<T, V>, ResourceErrorView>(
            ResourceErrorView::AlreadySet(child.name, "parent"@),
        ),
{
}

/// A resource with an argument that no validator rejects composes to its
/// name, a slash and the argument as it displays, whoever requires the
/// argument.
pub proof fn lemma_accepted_argument_is_written<T: Display, V: Fn(&T) -> Result<(), String>>(
    node: ResourceView<T, V>,
    result: Composed,
)
    requires
        node.arg is Some,
        node.may_yield(result),
        !(result matches Err(ArgErrorView::NotValid(_, _))),
    ensures
        exists|text: String| #[trigger]
            to_string_from_display_ensures::<T>(&node.arg->0, text) && result == Ok::<
                Seq<char>,
                ArgErrorView,
            >(segment(node.name, text@)),
{
}

/// A resource with an argument and without validators is never rejected.
pub proof fn lemma_no_validators_no_rejection<T: Display, V: Fn(&T) -> Result<(), String>>(
    node: ResourceView<T, V>,
    result: Composed,
)
    requires
        node.arg is Some,
        node.validators.len() == 0,
        node.may_yield(result),
    ensures
        result is Ok,
{
    let outcomes = choose|outcomes: Seq<Result<(), String>>| #[trigger]
        node.may_judge(node.arg->0, outcomes) && node.may_yield_after(
            node.arg->0,
            outcomes,
            result,
        );
    assert(outcomes.len() == 0);
}

/// A resource without an argument composes to its name and a slash, unless a
/// relative that it has was to see to the argument: then that relative is
/// named as missing its part. No validator has a say.
pub proof fn lemma_without_argument<T: Display, V: Fn(&T) -> Result<(), String>>(
    node: ResourceView<T, V>,
    result: Composed,
)
    requires
        node.arg is None,
        node.may_yield(result),
    ensures
        result == (if node.required_by is Parent && node.parent is Some {
            Err::<Seq<char>, ArgErrorView>(ArgErrorView::Missing(node.parent->0.name))
        } else if node.required_by is Child && node.child is Some {
            Err::<Seq<char>, ArgErrorView>(ArgErrorView::Missing(node.child->0.name))
        } else {
            Ok::<Seq<char>, ArgErrorView>(node.name + seq!['/'])
        }),
{
    assert(segment(node.name, Seq::empty()) == node.name + seq!['/']);
}

/// A resource with an argument and one validator, which rejects whatever it
/// is given with the reason `reason`, fails with that one reason.
pub proof fn lemma_rejecting_validator_fails<T: Display, V: Fn(&T) -> Result<(), String>>(
    node: ResourceView<T, V>,
    reason: Seq<char>,
    result: Composed,
)
    requires
        node.arg is Some,
        node.validators.len() == 1,
        forall|arg: T, outcome: Result<(), String>| #[trigger]
            call_ensures(node.validators[0], (&arg,), outcome) ==> (outcome matches Err(text)
                && text@ == reason),
        node.may_yield(result),
    ensures
        result == Err::<Seq<char>, ArgErrorView>(
            ArgErrorView::NotValid(node.name, seq![reason]),
        ),
{
    let arg = node.arg->0;
    let outcomes = choose|outcomes: Seq<Result<(), String>>| #[trigger]
        node.may_judge(arg, outcomes) && node.may_yield_after(arg, outcomes, result);
    assert(call_ensures(node.validators[0], (&arg,), outcomes[0]));
    assert(rejections(outcomes.drop_last()) == Seq::<Seq<char>>::empty());
    assert(rejections(outcomes) == seq![reason]);
}

/// Every rejection is reported: where validators reject the argument, the
/// error carries as many reasons as there were rejections.
pub proof fn lemma_all_rejections_are_reported(outcomes: Seq<Result<(), String>>)
    ensures
        rejections(outcomes).len() == outcomes.filter(|o: Result<(), String>| o is Err).len(),
        rejections(outcomes).len() == 0 <==> forall|i: int|
            0 <= i < outcomes.len() ==> (#[trigger] outcomes[i]) is Ok,
    decreases outcomes.len(),
{
    reveal(Seq::filter);
    if outcomes.len() > 0 {
        let init = outcomes.drop_last();
        lemma_all_rejections_are_reported(init);
        assert(outcomes == init.push(outcomes.last()));
        if rejections(outcomes).len() == 0 {
            assert forall|i: int| 0 <= i < outcomes.len() implies (#[trigger] outcomes[i]) is Ok by {
                if i < init.len() {
                    assert(init[i] == outcomes[i]);
                }
            }
        }
        if forall|i: int| 0 <= i < outcomes.len() ==> (#[trigger] outcomes[i]) is Ok {
            assert forall|i: int| 0 <= i < init.len() implies (#[trigger] init[i]) is Ok by {
                assert(init[i] == outcomes[i]);
            }
        }
    }
}

/// A chain starts with the resource that it is the chain of, and goes on with
/// the chain of its child; the chain of a tail is the tail alone.
pub proof fn lemma_chain_starts_with_self<T, V>(node: ResourceView<T, V>)
    ensures
        node.chain().len() > 0,
        node.chain()[0] == node,
        node.child is None ==> node.chain().len() == 1,
        node.child is Some ==> node.chain().skip(1) == node.child->0.chain(),
{
}

/// The names of the resources of a chain, each followed by a slash.
pub open spec fn bare_segments<T, V>(nodes: Seq<ResourceView<T, V>>) -> Seq<Seq<char>> {
    nodes.map_values(|node: ResourceView<T, V>| node.name + seq!['/'])
}

/// A chain in which no resource has an argument, and none waits for a
/// relative to see to one, composes to the names, each followed by a slash,
/// joined with slashes, after one pass that collapses doubled slashes.
pub proof fn lemma_chain_without_arguments<T: Display, V: Fn(&T) -> Result<(), String>>(
    root: ResourceView<T, V>,
    steps: Seq<Composed>,
)
    requires
        forall|i: int|
            0 <= i < root.chain().len() ==> (#[trigger] root.chain()[i]).arg is None
                && root.chain()[i].blocked_by() is None,
        is_walk(root.chain(), steps),
    ensures
        walk_result(steps) == Ok::<Seq<char>, ArgErrorView>(
            collapse_slashes(join(bare_segments(root.chain()), seq!['/'])),
        ),
{
    let nodes = root.chain();
    assert forall|i: int| 0 <= i < steps.len() implies #[trigger] steps[i] == Ok::<
        Seq<char>,
        ArgErrorView,
    >(nodes[i].name + seq!['/']) by {
        assert(nodes[i].may_yield(steps[i]));
        assert(nodes[i].arg is None);
        assert(segment(nodes[i].name, Seq::empty()) == nodes[i].name + seq!['/']);
    }
    assert(steps.last() == steps[steps.len() - 1]);
    assert(segments(steps) == bare_segments(nodes));
}

} // verus!
