use uri_routes::resources::{
    ApiResource, ArgError, ArgRequiredBy, ArgedResource, CoreResource, LinkedResource,
    PathComponent, ResourceError, WeightedResource,
};

fn reject_all(_arg: &String) -> Result<(), String> {
    Err(String::from("never good enough"))
}

fn accept_all(_arg: &String) -> Result<(), String> {
    Ok(())
}

fn digits_only(arg: &String) -> Result<(), String> {
    if arg.chars().all(|c| c.is_ascii_digit()) {
        Ok(())
    } else {
        Err(format!("{arg} is not a number"))
    }
}

fn at_most_three(arg: &String) -> Result<(), String> {
    if arg.len() <= 3 {
        Ok(())
    } else {
        Err(format!("{arg} is too long"))
    }
}

#[test]
fn fresh_node_is_root_and_tail() {
    let node: ApiResource<String> = ApiResource::new("resource");
    assert!(node.is_root());
    assert!(node.is_tail());
    assert!(!node.is_child());
    assert!(node.argument().is_none());
    assert!(node.required_by().is_noone());
    assert_eq!(node.weight(), 0);
    assert_eq!(node.name(), "resource");
    assert!(node.child().is_none());
    assert!(node.parent().is_none());
    assert_eq!(node.as_path_component().unwrap(), "resource/");
}

#[test]
fn requirement_is_one_of_four() {
    assert!(ArgRequiredBy::Child.is_child());
    assert!(ArgRequiredBy::Me.is_me());
    assert!(ArgRequiredBy::NoOne.is_noone());
    assert!(ArgRequiredBy::Parent.is_parent());
    let all = [
        ArgRequiredBy::Child,
        ArgRequiredBy::Me,
        ArgRequiredBy::NoOne,
        ArgRequiredBy::Parent,
    ];
    for r in all {
        let hits = [r.is_child(), r.is_me(), r.is_noone(), r.is_parent()];
        assert_eq!(hits.iter().filter(|h| **h).count(), 1);
    }
    assert!(!ArgRequiredBy::Me.is_child());
    assert!(!ArgRequiredBy::Child.is_parent());
}

#[test]
fn setters_change_one_thing_each() {
    let mut node: ApiResource<String> = ApiResource::new("users");
    node.with_arg(String::from("7"));
    assert_eq!(node.argument(), Some(&String::from("7")));
    assert!(node.required_by().is_noone());
    node.with_arg_required(ArgRequiredBy::Parent);
    assert!(node.required_by().is_parent());
    assert_eq!(node.argument(), Some(&String::from("7")));
    assert_eq!(node.with_weight(2.5f32.to_bits()).weight(), 2.5f32.to_bits());
    assert_eq!(f32::from_bits(node.weight()), 2.5);
    assert_eq!(node.name(), "users");
    assert!(node.is_root() && node.is_tail());
    node.with_arg(String::from("8"));
    assert_eq!(node.argument(), Some(&String::from("8")));
}

#[test]
fn attach_child_links_only_the_copies() {
    let parent: ApiResource<String> = ApiResource::new("parent_resource");
    let child: ApiResource<String> = ApiResource::new("child_resource");
    let linked = parent.with_child(&child).unwrap();
    assert!(!linked.is_tail());
    assert!(linked.is_root());
    let held = linked.child().unwrap();
    assert!(held.is_child());
    assert!(!held.is_root());
    assert!(held.is_tail());
    assert_eq!(held.name(), "child_resource");
    assert_eq!(held.parent().unwrap().name(), "parent_resource");
    assert!(held.parent().unwrap().is_tail());
    assert!(parent.is_tail());
    assert!(parent.is_root());
    assert!(child.is_root());
    assert!(child.is_tail());
    assert!(!child.is_child());
}

#[test]
fn attach_parent_links_only_the_copy() {
    let parent: ApiResource<String> = ApiResource::new("parent_resource");
    let child: ApiResource<String> = ApiResource::new("child_resource");
    let linked = child.with_parent(&parent).unwrap();
    assert!(linked.is_child());
    assert!(!linked.is_root());
    assert!(linked.is_tail());
    assert_eq!(linked.parent().unwrap().name(), "parent_resource");
    assert!(child.is_root());
    assert!(parent.is_tail());
}

#[test]
fn copies_carry_argument_requirement_weight_and_validators() {
    let mut parent: ApiResource<String> = ApiResource::new("users");
    parent
        .with_arg(String::from("abc"))
        .with_arg_required(ArgRequiredBy::Me)
        .with_validator(digits_only);
    parent.with_weight(1.5f32.to_bits());
    let child: ApiResource<String> = ApiResource::new("orders");
    let linked = parent.with_child(&child).unwrap();
    assert_eq!(linked.argument(), Some(&String::from("abc")));
    assert!(linked.required_by().is_me());
    assert_eq!(linked.weight(), 1.5f32.to_bits());
    assert_eq!(
        linked.as_path_component(),
        Err(ArgError::NotValid(
            String::from("users"),
            vec![String::from("abc is not a number")]
        ))
    );
    let above = linked.child().unwrap().parent().unwrap();
    assert_eq!(above.argument(), Some(&String::from("abc")));
    assert_eq!(above.as_path_component(), linked.as_path_component());
    let copy = (*linked).clone();
    assert_eq!(copy.name(), "users");
    assert_eq!(copy.child().unwrap().name(), "orders");
    assert_eq!(copy.child().unwrap().parent().unwrap().name(), "users");
    assert_eq!(copy.compose(), linked.compose());
}

#[test]
fn second_child_is_refused() {
    let parent: ApiResource<String> = ApiResource::new("parent_resource");
    let first: ApiResource<String> = ApiResource::new("first");
    let second: ApiResource<String> = ApiResource::new("second");
    let linked = parent.with_child(&first).unwrap();
    let err = linked.with_child(&second).unwrap_err();
    assert_eq!(
        err,
        ResourceError::AlreadySet(String::from("parent_resource"), String::from("child"))
    );
    assert!(parent.with_child(&second).is_ok());
}

#[test]
fn second_parent_is_refused() {
    let child: ApiResource<String> = ApiResource::new("child_resource");
    let first: ApiResource<String> = ApiResource::new("first");
    let second: ApiResource<String> = ApiResource::new("second");
    let linked = child.with_parent(&first).unwrap();
    let err = linked.with_parent(&second).unwrap_err();
    assert_eq!(
        err,
        ResourceError::AlreadySet(String::from("child_resource"), String::from("parent"))
    );
}

#[test]
fn child_that_has_a_parent_is_refused() {
    let a: ApiResource<String> = ApiResource::new("a");
    let b: ApiResource<String> = ApiResource::new("b");
    let c: ApiResource<String> = ApiResource::new("c");
    let linked = a.with_child(&b).unwrap();
    let held = linked.child().unwrap();
    let err = c.with_child(held).unwrap_err();
    assert_eq!(err, ResourceError::AlreadySet(String::from("b"), String::from("parent")));
}

#[test]
fn full_node_names_itself_before_the_child() {
    let a: ApiResource<String> = ApiResource::new("a");
    let b: ApiResource<String> = ApiResource::new("b");
    let c: ApiResource<String> = ApiResource::new("c");
    let a = a.with_child(&b).unwrap();
    let held = a.child().unwrap();
    let err = a.with_child(held).unwrap_err();
    assert_eq!(err, ResourceError::AlreadySet(String::from("a"), String::from("child")));
    assert!(c.with_child(&b).is_ok());
}

#[test]
fn argument_is_written_behind_the_name() {
    let mut node: ApiResource<String> = ApiResource::new("users");
    node.with_arg_required(ArgRequiredBy::Me).with_arg(String::from("42"));
    assert_eq!(node.as_path_component().unwrap(), "users/42");
    let mut node: ApiResource<u32> = ApiResource::new("page");
    node.with_arg(7);
    assert_eq!(node.as_path_component().unwrap(), "page/7");
}

#[test]
fn accepted_argument_is_written_behind_the_name() {
    let mut node: ApiResource<String> = ApiResource::new("users");
    node.with_arg_required(ArgRequiredBy::Me)
        .with_arg(String::from("42"))
        .with_validator(accept_all)
        .with_validator(digits_only);
    assert_eq!(node.as_path_component().unwrap(), "users/42");
}

#[test]
fn own_requirement_without_argument_gives_the_bare_segment() {
    let mut node: ApiResource<String> = ApiResource::new("users");
    node.with_arg_required(ArgRequiredBy::Me);
    assert_eq!(node.as_path_component().unwrap(), "users/");
    node.with_validator(reject_all);
    assert_eq!(node.as_path_component().unwrap(), "users/");
}

#[test]
fn absent_relative_cannot_be_missing() {
    let mut node: ApiResource<String> = ApiResource::new("users");
    node.with_arg_required(ArgRequiredBy::Parent);
    assert_eq!(node.as_path_component().unwrap(), "users/");
    node.with_arg_required(ArgRequiredBy::Child);
    assert_eq!(node.as_path_component().unwrap(), "users/");
}

#[test]
fn parent_that_owes_the_argument_is_named() {
    let parent: ApiResource<String> = ApiResource::new("users");
    let mut child: ApiResource<String> = ApiResource::new("orders");
    child.with_arg_required(ArgRequiredBy::Parent);
    let linked = parent.with_child(&child).unwrap();
    let held = linked.child().unwrap();
    assert_eq!(held.as_path_component(), Err(ArgError::Missing(String::from("users"))));
    assert_eq!(linked.compose(), Err(ArgError::Missing(String::from("users"))));
    assert_eq!(child.as_path_component().unwrap(), "orders/");
}

#[test]
fn child_that_owes_the_argument_is_named() {
    let mut parent: ApiResource<String> = ApiResource::new("users");
    parent.with_arg_required(ArgRequiredBy::Child);
    let child: ApiResource<String> = ApiResource::new("orders");
    let linked = parent.with_child(&child).unwrap();
    assert_eq!(linked.as_path_component(), Err(ArgError::Missing(String::from("orders"))));
    assert_eq!(linked.compose(), Err(ArgError::Missing(String::from("orders"))));
    assert_eq!(parent.as_path_component().unwrap(), "users/");
}

#[test]
fn argument_settles_every_requirement() {
    let mut parent: ApiResource<String> = ApiResource::new("users");
    parent.with_arg_required(ArgRequiredBy::Child).with_arg(String::from("7"));
    let child: ApiResource<String> = ApiResource::new("orders");
    let linked = parent.with_child(&child).unwrap();
    assert_eq!(linked.as_path_component().unwrap(), "users/7");
    assert_eq!(linked.compose().unwrap(), "users/7/orders/");
}

#[test]
fn validator_that_rejects_everything_fails_composition() {
    let mut node: ApiResource<String> = ApiResource::new("users");
    node.with_arg(String::from("42")).with_validator(reject_all);
    assert_eq!(
        node.as_path_component(),
        Err(ArgError::NotValid(
            String::from("users"),
            vec![String::from("never good enough")]
        ))
    );
    assert_eq!(node.compose(), node.as_path_component());
}

#[test]
fn every_rejection_is_reported_in_order() {
    let mut node: ApiResource<String> = ApiResource::new("users");
    node.with_arg(String::from("abcd"))
        .with_validator(at_most_three)
        .with_validator(accept_all)
        .with_validator(digits_only);
    assert_eq!(
        node.as_path_component(),
        Err(ArgError::NotValid(
            String::from("users"),
            vec![String::from("abcd is too long"), String::from("abcd is not a number")]
        ))
    );
}

#[test]
fn closures_can_validate() {
    let limit = 10u32;
    let below = move |arg: &u32| {
        if *arg < limit {
            Ok(())
        } else {
            Err(format!("{arg} is not below {limit}"))
        }
    };
    let mut node = ApiResource::new("page");
    node.with_arg(12u32).with_validator(below);
    assert_eq!(
        node.as_path_component(),
        Err(ArgError::NotValid(
            String::from("page"),
            vec![String::from("12 is not below 10")]
        ))
    );
    node.with_arg(3);
    assert_eq!(node.as_path_component().unwrap(), "page/3");
}

#[test]
fn chain_of_three_composes() {
    let users: ApiResource<String> = ApiResource::new("users");
    let id: ApiResource<String> = ApiResource::new("42");
    let orders: ApiResource<String> = ApiResource::new("orders");
    let id = id.with_child(&orders).unwrap();
    let users = users.with_child(&id).unwrap();
    assert!(users.is_root() && !users.is_tail());
    assert!(users.child().unwrap().child().unwrap().is_tail());
    assert_eq!(users.compose().unwrap(), "users/42/orders/");
}

#[test]
fn chain_with_arguments_composes() {
    let mut users: ApiResource<String> = ApiResource::new("users");
    users.with_arg(String::from("42"));
    let mut orders: ApiResource<String> = ApiResource::new("orders");
    orders.with_arg(String::from("7"));
    let users = users.with_child(&orders).unwrap();
    assert_eq!(users.compose().unwrap(), "users/42/orders/7");
}

#[test]
fn composition_starts_where_it_is_called() {
    let users: ApiResource<String> = ApiResource::new("users");
    let id: ApiResource<String> = ApiResource::new("42");
    let orders: ApiResource<String> = ApiResource::new("orders");
    let id = id.with_child(&orders).unwrap();
    let users = users.with_child(&id).unwrap();
    let middle = users.child().unwrap();
    assert_eq!(middle.compose().unwrap(), "42/orders/");
    assert_eq!(middle.child().unwrap().compose().unwrap(), "orders/");
}

#[test]
fn first_failure_ends_the_composition() {
    let users: ApiResource<String> = ApiResource::new("users");
    let mut id: ApiResource<String> = ApiResource::new("id");
    id.with_arg(String::from("x")).with_validator(digits_only);
    let mut orders: ApiResource<String> = ApiResource::new("orders");
    orders.with_arg(String::from("y")).with_validator(reject_all);
    let id = id.with_child(&orders).unwrap();
    let users = users.with_child(&id).unwrap();
    assert_eq!(
        users.compose(),
        Err(ArgError::NotValid(String::from("id"), vec![String::from("x is not a number")]))
    );
}

#[test]
fn empty_segments_can_leave_a_doubled_slash() {
    let a: ApiResource<String> = ApiResource::new("");
    let b: ApiResource<String> = ApiResource::new("");
    let c: ApiResource<String> = ApiResource::new("");
    let b = b.with_child(&c).unwrap();
    let a = a.with_child(&b).unwrap();
    assert_eq!(a.compose().unwrap(), "///");
}

#[test]
fn errors_can_be_copied_and_compared() {
    let missing = ArgError::Missing(String::from("users"));
    assert_eq!(missing.clone(), missing);
    let invalid = ArgError::NotValid(String::from("users"), vec![String::from("bad")]);
    assert_eq!(invalid.clone(), invalid);
    assert_ne!(missing, invalid);
    let set = ResourceError::AlreadySet(String::from("users"), String::from("child"));
    assert_eq!(set.clone(), set);
}
