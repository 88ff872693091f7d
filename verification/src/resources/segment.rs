//! From what the validators returned and what the argument displays as to the
//! text of a path.

use crate::resources::errors::ArgError;
use crate::resources::model::{composed_view, judged, rejections, segment};
use crate::text::{collapse_double_slash, collapse_slashes, join, join_strings, texts};
use vstd::prelude::*;

verus! {

/// The path segment of a resource named `name` whose argument displays as
/// `arg_text`: `"{name}/{arg_text}"`.
pub fn segment_text(name: &str, arg_text: &str) -> (res: String)
    ensures
        res@ == segment(name@, arg_text@),
{
    proof {
        reveal_strlit("/");
    }
    let mut out = name.to_owned();
    out.append("/");
    assert("/"@ == seq!['/']);
    out.append(arg_text);
    out
}

/// The reasons of the rejections among `outcomes`, in their order.
pub fn rejections_of(outcomes: &Vec<Result<(), String>>) -> (res: Vec<String>)
    ensures
        texts(res@) == rejections(outcomes@),
{
    let mut reasons: Vec<String> = Vec::new();
    let mut i: usize = 0;
    while i < outcomes.len()
        invariant
            i <= outcomes.len(),
            texts(reasons@) == rejections(outcomes@.take(i as int)),
        decreases outcomes.len() - i,
    {
        proof {
            let upto = outcomes@.take(i + 1);
            assert(upto.drop_last() == outcomes@.take(i as int));
            assert(upto.last() == outcomes@[i as int]);
        }
        let ghost before = reasons@;
        match &outcomes[i] {
            Ok(_) => {},
            Err(reason) => {
                reasons.push(reason.clone());
                assert(texts(reasons@) == texts(before).push(reason@));
            },
        }
        i += 1;
    }
    assert(outcomes@.take(i as int) == outcomes@);
    reasons
}

/// What the outcomes of its validators make of a resource named `name`: the
/// rejection with every reason, in the validators' order, where there is one;
/// else the start of its segment, `"{name}/"`, behind which the argument is
/// written.
pub fn segment_after(name: &str, outcomes: &Vec<Result<(), String>>) -> (res: Result<
    String,
    ArgError,
>)
    ensures
        composed_view(res) == judged(name@, outcomes@),
{
    let reasons = rejections_of(outcomes);
    if reasons.len() > 0 {
        Err(ArgError::NotValid(name.to_owned(), reasons))
    } else {
        proof {
            reveal_strlit("");
        }
        assert(""@ == Seq::<char>::empty());
        Ok(segment_text(name, ""))
    }
}

/// The path of a chain whose resources gave `segments`: the segments joined
/// with slashes, after one pass that collapses doubled slashes.
pub fn compose_segments(segments: &Vec<String>) -> (res: String)
    ensures
        res@ == collapse_slashes(join(texts(segments@), seq!['/'])),
{
    proof {
        reveal_strlit("/");
    }
    assert("/"@ == seq!['/']);
    let joined = join_strings(segments, "/");
    collapse_double_slash(joined.as_str())
}

} // verus!
