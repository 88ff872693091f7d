//! Text operations on paths: joining segments and collapsing doubled slashes.

use vstd::prelude::*;
use vstd::std_specs::iter::IteratorSpec;

verus! {

/// The texts of a sequence of strings.
pub open spec fn texts(parts: Seq<String>) -> Seq<Seq<char>> {
    parts.map_values(|s: String| s@)
}

/// `parts` written one after another with `sep` between neighbours.
pub open spec fn join(parts: Seq<Seq<char>>, sep: Seq<char>) -> Seq<char>
    decreases parts.len(),
{
    if parts.len() == 0 {
        Seq::empty()
    } else if parts.len() == 1 {
        parts[0]
    } else {
        join(parts.drop_last(), sep) + sep + parts.last()
    }
}

/// One pass over `s` from the left in which every pair of neighbouring
/// slashes becomes a single slash. A slash produced by the pass is not looked
/// at again, so a run of three slashes leaves two.
pub open spec fn collapse_slashes(s: Seq<char>) -> Seq<char>
    decreases s.len(),
{
    if s.len() < 2 {
        s
    } else if s[0] == '/' && s[1] == '/' {
        seq!['/'] + collapse_slashes(s.skip(2))
    } else {
        seq![s[0]] + collapse_slashes(s.skip(1))
    }
}

/// Joins `parts` with `sep` between neighbours.
pub fn join_strings(parts: &Vec<String>, sep: &str) -> (res: String)
    ensures
        res@ == join(texts(parts@), sep@),
{
    let mut out = String::new();
    let mut i: usize = 0;
    while i < parts.len()
        invariant
            i <= parts.len(),
            out@ == join(texts(parts@).take(i as int), sep@),
        decreases parts.len() - i,
    {
        proof {
            let upto = texts(parts@).take(i + 1);
            assert(upto.drop_last() == texts(parts@).take(i as int));
            assert(upto.last() == parts@[i as int]@);
        }
        if i > 0 {
            out.append(sep);
        }
        out.append(parts[i].as_str());
        i += 1;
    }
    assert(texts(parts@).take(i as int) == texts(parts@));
    out
}

/// Believed, not proved, of `String::push`: it appends the one character to
/// the text of the string.
pub assume_specification[ String::push ](s: &mut String, c: char)
    ensures
        final(s)@ == old(s)@.push(c),
;

/// Collapses doubled slashes in `s` in a single pass.
pub fn collapse_double_slash(s: &str) -> (res: String)
    ensures
        res@ == collapse_slashes(s@),
{
    broadcast use vstd::string::group_string_axioms;

    let mut out = String::new();
    // A slash has been read and not yet written: the next character decides
    // whether it is the first half of a pair.
    let mut pending = false;
    let mut it = s.chars();
    assert(out@ + collapse_slashes(held_back(pending) + it.remaining()) == collapse_slashes(s@)) by {
        assert(held_back(pending) + it.remaining() == s@);
        assert(out@ + collapse_slashes(s@) == collapse_slashes(s@));
    }
    loop
        invariant
            it.obeys_prophetic_iter_laws(),
            it.decrease() is Some,
            out@ + collapse_slashes(held_back(pending) + it.remaining()) == collapse_slashes(s@),
        ensures
            it.remaining().len() == 0,
        decreases it.decrease()->0,
    {
        let ghost before = it.remaining();
        let ghost written = out@;
        match it.next() {
            None => {
                break ;
            },
            Some(c) => {
                let ghost rest = it.remaining();
                assert(before == seq![c] + rest);
                if c == '/' {
                    if pending {
                        proof {
                            lemma_collapse_pair(rest);
                            assert(held_back(true) + before == seq!['/', '/'] + rest);
                            assert(held_back(false) + rest == rest);
                        }
                        out.push('/');
                        pending = false;
                        assert(out@ + collapse_slashes(rest) == written + (seq!['/'] + collapse_slashes(
                            rest,
                        )));
                    } else {
                        proof {
                            assert(held_back(false) + before == held_back(true) + rest);
                        }
                        pending = true;
                    }
                } else {
                    proof {
                        lemma_collapse_other(c, rest);
                        assert(held_back(false) + rest == rest);
                    }
                    if pending {
                        proof {
                            lemma_collapse_single(seq![c] + rest);
                            assert(held_back(true) + before == seq!['/'] + (seq![c] + rest));
                        }
                        out.push('/');
                        pending = false;
                        assert(out@ + (seq![c] + collapse_slashes(rest)) == written + (seq!['/'] + (
                        seq![c] + collapse_slashes(rest))));
                    } else {
                        assert(held_back(false) + before == seq![c] + rest);
                    }
                    let ghost so_far = out@;
                    out.push(c);
                    assert(out@ + collapse_slashes(rest) == so_far + (seq![c] + collapse_slashes(rest)));
                }
            },
        }
    }
    if pending {
        assert(held_back(true) + it.remaining() == seq!['/']);
        out.push('/');
    } else {
        assert(held_back(false) + it.remaining() == Seq::<char>::empty());
    }
    out
}

/// The slash that the scan has read but not yet written, if any.
spec fn held_back(pending: bool) -> Seq<char> {
    if pending {
        seq!['/']
    } else {
        Seq::empty()
    }
}

/// A pair of slashes at the front collapses to one slash, and the pass goes on
/// behind the pair.
proof fn lemma_collapse_pair(rest: Seq<char>)
    ensures
        collapse_slashes(seq!['/', '/'] + rest) == seq!['/'] + collapse_slashes(rest),
{
    let s = seq!['/', '/'] + rest;
    assert(s.skip(2) == rest);
}

/// A slash that is followed by anything but a slash stays as it is.
proof fn lemma_collapse_single(rest: Seq<char>)
    requires
        rest.len() > 0,
        rest[0] != '/',
    ensures
        collapse_slashes(seq!['/'] + rest) == seq!['/'] + collapse_slashes(rest),
{
    let s = seq!['/'] + rest;
    assert(s.skip(1) == rest);
}

/// A character other than a slash stays as it is.
proof fn lemma_collapse_other(c: char, rest: Seq<char>)
    requires
        c != '/',
    ensures
        collapse_slashes(seq![c] + rest) == seq![c] + collapse_slashes(rest),
{
    let s = seq![c] + rest;
    if rest.len() == 0 {
        assert(s == seq![c]);
        assert(seq![c] + collapse_slashes(rest) == seq![c]);
    } else {
        assert(s.skip(1) == rest);
    }
}

/// A run of `n` slashes.
pub open spec fn slashes(n: nat) -> Seq<char> {
    Seq::new(n, |i: int| '/')
}

/// The pass halves a run of slashes, rounding up: of three slashes two are
/// left, of five three. Doubled slashes can so outlive the pass.
pub proof fn lemma_collapse_halves_a_run(n: nat)
    ensures
        collapse_slashes(slashes(n)) == slashes((n + 1) / 2),
    decreases n,
{
    let run = slashes(n);
    if n < 2 {
        assert(run == slashes((n + 1) / 2));
    } else {
        lemma_collapse_halves_a_run((n - 2) as nat);
        assert(run.skip(2) == slashes((n - 2) as nat));
        assert(seq!['/'] + slashes(((n - 2) as nat + 1) / 2) == slashes((n + 1) / 2));
    }
}

/// The pass leaves a text without doubled slashes as it is.
pub proof fn lemma_collapse_keeps_single_slashes(s: Seq<char>)
    requires
        forall|i: int| 0 <= i < s.len() - 1 ==> !(s[i] == '/' && #[trigger] s[i + 1] == '/'),
    ensures
        collapse_slashes(s) == s,
    decreases s.len(),
{
    if s.len() >= 2 {
        assert(!(s[0] == '/' && s[0int + 1] == '/'));
        let rest = s.skip(1);
        assert forall|i: int| 0 <= i < rest.len() - 1 implies !(rest[i] == '/' && #[trigger] rest[i
            + 1] == '/') by {
            assert(rest[i] == s[i + 1] && rest[i + 1] == s[(i + 1) + 1]);
        }
        lemma_collapse_keeps_single_slashes(rest);
        assert(seq![s[0]] + rest == s);
    }
}

/// The pass never makes a text longer.
pub proof fn lemma_collapse_shortens(s: Seq<char>)
    ensures
        collapse_slashes(s).len() <= s.len(),
    decreases s.len(),
{
    if s.len() >= 2 {
        if s[0] == '/' && s[1] == '/' {
            lemma_collapse_shortens(s.skip(2));
        } else {
            lemma_collapse_shortens(s.skip(1));
        }
    }
}

} // verus!
