use uri_routes::resources::segment::{compose_segments, rejections_of, segment_after, segment_text};
use uri_routes::resources::ArgError;
use uri_routes::text::{collapse_double_slash, join_strings};

fn strings(parts: &[&str]) -> Vec<String> {
    parts.iter().map(|p| p.to_string()).collect()
}

#[test]
fn join_puts_the_separator_between_neighbours() {
    assert_eq!(join_strings(&strings(&[]), "/"), "");
    assert_eq!(join_strings(&strings(&["a"]), "/"), "a");
    assert_eq!(join_strings(&strings(&["a", "b", "c"]), "/"), "a/b/c");
    assert_eq!(join_strings(&strings(&["", "", ""]), "/"), "//");
    assert_eq!(join_strings(&strings(&["k=v", "x=y"]), "&"), "k=v&x=y");
    assert_eq!(join_strings(&strings(&["a", "b"]), ""), "ab");
    assert_eq!(join_strings(&strings(&["a", "b"]), ", "), "a, b");
}

#[test]
fn join_agrees_with_the_standard_library() {
    let cases: [&[&str]; 5] = [&[], &["x"], &["", "x"], &["x", ""], &["/", "a", "b/", "/c"]];
    for parts in cases {
        let owned = strings(parts);
        assert_eq!(join_strings(&owned, "/"), owned.join("/"));
    }
}

#[test]
fn collapse_replaces_each_pair_of_slashes_once() {
    assert_eq!(collapse_double_slash(""), "");
    assert_eq!(collapse_double_slash("/"), "/");
    assert_eq!(collapse_double_slash("//"), "/");
    assert_eq!(collapse_double_slash("///"), "//");
    assert_eq!(collapse_double_slash("////"), "//");
    assert_eq!(collapse_double_slash("/////"), "///");
    assert_eq!(collapse_double_slash("a//b"), "a/b");
    assert_eq!(collapse_double_slash("a/b"), "a/b");
    assert_eq!(collapse_double_slash("//a//b//"), "/a/b/");
    assert_eq!(collapse_double_slash("a///b"), "a//b");
    assert_eq!(collapse_double_slash("ä//ö"), "ä/ö");
}

#[test]
fn collapse_agrees_with_the_standard_library() {
    let cases = ["", "/", "//", "///", "////", "a//b///c////d", "nothing", "/x/", "//x//", "x/"];
    for s in cases {
        assert_eq!(collapse_double_slash(s), s.replace("//", "/"));
    }
}

#[test]
fn segment_is_name_slash_argument() {
    assert_eq!(segment_text("users", "42"), "users/42");
    assert_eq!(segment_text("users", ""), "users/");
    assert_eq!(segment_text("", ""), "/");
}

#[test]
fn rejections_keep_the_order_of_the_validators() {
    let outcomes = vec![
        Err(String::from("too short")),
        Ok(()),
        Err(String::from("not a number")),
    ];
    assert_eq!(rejections_of(&outcomes), strings(&["too short", "not a number"]));
    assert_eq!(rejections_of(&vec![Ok(()), Ok(())]), strings(&[]));
    assert_eq!(rejections_of(&vec![]), strings(&[]));
}

#[test]
fn outcomes_decide_between_segment_and_rejection() {
    assert_eq!(segment_after("users", &vec![]), Ok(String::from("users/")));
    assert_eq!(segment_after("users", &vec![Ok(()), Ok(())]), Ok(String::from("users/")));
    assert_eq!(
        segment_after("users", &vec![Ok(()), Err(String::from("bad")), Err(String::from("worse"))]),
        Err(ArgError::NotValid(String::from("users"), strings(&["bad", "worse"])))
    );
}

#[test]
fn segments_are_joined_and_collapsed_once() {
    assert_eq!(compose_segments(&strings(&["users/", "42/", "orders/"])), "users/42/orders/");
    assert_eq!(compose_segments(&strings(&["users/7", "orders/9"])), "users/7/orders/9");
    assert_eq!(compose_segments(&strings(&["a/"])), "a/");
    assert_eq!(compose_segments(&strings(&["/", "/", "/"])), "///");
    assert_eq!(compose_segments(&strings(&[])), "");
}
