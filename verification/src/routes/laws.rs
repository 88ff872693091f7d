//! What holds of the path entries of a route whatever they are.

use crate::routes::model::{
    entry_weight,
    filled_paths,
    insert_by_weight,
    sorted_by_weight,
    PathEntry,
    RouteView,
};
use crate::text::join;
use crate::weight::{clamped, MAX_WEIGHT, MIN_WEIGHT, NAN_WEIGHT};
use vstd::prelude::*;

verus! {

/// Putting an entry in by its weight keeps the entries and their order, and
/// adds the one entry.
pub proof fn lemma_insert_adds_one(paths: Seq<PathEntry>, entry: PathEntry)
    ensures
        insert_by_weight(paths, entry).len() == paths.len() + 1,
        insert_by_weight(paths, entry).to_multiset() == paths.to_multiset().insert(entry),
    decreases paths.len(),
{
    broadcast use vstd::seq_lib::group_to_multiset_ensures;

    if paths.len() == 0 {
        assert(paths == Seq::<PathEntry>::empty());
        assert(seq![entry] == Seq::<PathEntry>::empty().push(entry));
    } else if paths.last().weight <= entry.weight {
    } else {
        lemma_insert_adds_one(paths.drop_last(), entry);
        assert(paths == paths.drop_last().push(paths.last()));
    }
}

/// Putting an entry into sorted entries by its weight leaves them sorted.
pub proof fn lemma_insert_keeps_sorted(paths: Seq<PathEntry>, entry: PathEntry)
    requires
        sorted_by_weight(paths),
    ensures
        sorted_by_weight(insert_by_weight(paths, entry)),
    decreases paths.len(),
{
    let res = insert_by_weight(paths, entry);
    if paths.len() == 0 {
    } else if paths.last().weight <= entry.weight {
    } else {
        let init = paths.drop_last();
        lemma_insert_keeps_sorted(init, entry);
        lemma_insert_bounded(init, entry, paths.last().weight);
        let inner = insert_by_weight(init, entry);
        assert forall|i: int, j: int| 0 <= i <= j < res.len() implies res[i].weight
            <= res[j].weight by {
            if j < inner.len() {
                assert(res[i] == inner[i] && res[j] == inner[j]);
            } else if i < inner.len() {
                assert(res[i] == inner[i]);
            }
        }
    }
}

/// Where no entry and not the new one is heavier than `bound`, none is after
/// the new one was put in.
pub proof fn lemma_insert_bounded(paths: Seq<PathEntry>, entry: PathEntry, bound: u32)
    requires
        entry.weight <= bound,
        forall|i: int| 0 <= i < paths.len() ==> paths[i].weight <= bound,
    ensures
        forall|i: int|
            0 <= i < insert_by_weight(paths, entry).len() ==> insert_by_weight(
                paths,
                entry,
            )[i].weight <= bound,
    decreases paths.len(),
{
    let res = insert_by_weight(paths, entry);
    if paths.len() == 0 {
    } else if paths.last().weight <= entry.weight {
        assert forall|i: int| 0 <= i < res.len() implies res[i].weight <= bound by {
            if i < paths.len() {
                assert(res[i] == paths[i]);
            }
        }
    } else {
        let init = paths.drop_last();
        assert forall|i: int| 0 <= i < init.len() implies init[i].weight <= bound by {
            assert(init[i] == paths[i]);
        }
        lemma_insert_bounded(init, entry, bound);
        let inner = insert_by_weight(init, entry);
        assert forall|i: int| 0 <= i < res.len() implies res[i].weight <= bound by {
            if i < inner.len() {
                assert(res[i] == inner[i]);
            } else {
                assert(res[i] == paths[paths.len() - 1]);
            }
        }
    }
}

/// In sorted entries the new entry comes to stand at the one place that
/// parts the entries that are not heavier than it, which all stay before it,
/// from the heavier ones, which all stay behind it.
pub proof fn lemma_insert_position(paths: Seq<PathEntry>, entry: PathEntry) -> (at: int)
    requires
        sorted_by_weight(paths),
    ensures
        0 <= at <= paths.len(),
        insert_by_weight(paths, entry) == paths.take(at).push(entry) + paths.skip(at),
        forall|i: int| 0 <= i < at ==> paths[i].weight <= entry.weight,
        forall|i: int| at <= i < paths.len() ==> paths[i].weight > entry.weight,
    decreases paths.len(),
{
    if paths.len() == 0 {
        assert(insert_by_weight(paths, entry) == paths.take(0).push(entry) + paths.skip(0));
        0
    } else if paths.last().weight <= entry.weight {
        let at = paths.len() as int;
        assert(paths.take(at) == paths);
        assert(paths.push(entry) + paths.skip(at) == paths.push(entry));
        at
    } else {
        let init = paths.drop_last();
        assert forall|i: int, j: int| 0 <= i <= j < init.len() implies init[i].weight
            <= init[j].weight by {
            assert(init[i] == paths[i] && init[j] == paths[j]);
        }
        let at = lemma_insert_position(init, entry);
        assert(init.take(at) == paths.take(at));
        assert(init.skip(at).push(paths.last()) == paths.skip(at));
        assert((init.take(at).push(entry) + init.skip(at)).push(paths.last()) == init.take(
            at,
        ).push(entry) + init.skip(at).push(paths.last()));
        assert forall|i: int| at <= i < paths.len() implies paths[i].weight > entry.weight by {
            if i < init.len() {
                assert(init[i] == paths[i]);
            }
        }
        assert forall|i: int| 0 <= i < at implies paths[i].weight <= entry.weight by {
            assert(init[i] == paths[i]);
        }
        at
    }
}

/// An entry that is inserted without a weight gets the greatest weight, and
/// comes to stand behind all entries whose weights are numbers.
pub proof fn lemma_default_weight_sorts_last(route: RouteView, path: Seq<char>)
    requires
        forall|i: int| 0 <= i < route.paths.len() ==> route.paths[i].weight <= MAX_WEIGHT,
    ensures
        entry_weight(None) == MAX_WEIGHT,
        route.with_entry(path, None).paths == route.paths.push(
            PathEntry { path, weight: MAX_WEIGHT },
        ),
{
    if route.paths.len() > 0 {
        assert(route.paths.last() == route.paths[route.paths.len() - 1]);
    }
}

/// The weight of an inserted entry lies in the range of weights, unless it
/// is not a number.
pub proof fn lemma_entry_weight_in_range(weight: Option<u32>)
    ensures
        MIN_WEIGHT <= entry_weight(weight) <= MAX_WEIGHT || entry_weight(weight) == NAN_WEIGHT,
        weight matches Some(bits) ==> entry_weight(weight) == clamped(bits),
{
}

/// A route as it is made is well formed.
pub proof fn lemma_fresh_is_well_formed(host: Seq<char>)
    ensures
        RouteView::fresh(host).well_formed(),
{
}

/// Inserting an entry keeps a route well formed: the root entry stays first,
/// whatever the weight that is asked for, and the entries stay sorted.
pub proof fn lemma_entry_keeps_well_formed(route: RouteView, path: Seq<char>, weight: Option<u32>)
    requires
        route.well_formed(),
    ensures
        route.with_entry(path, weight).well_formed(),
{
    let entry = PathEntry { path, weight: entry_weight(weight) };
    lemma_insert_keeps_sorted(route.paths, entry);
    let at = lemma_insert_position(route.paths, entry);
    assert(at > 0) by {
        if at == 0 {
            assert(route.paths[0].weight > entry.weight);
        }
    }
    assert(route.paths.take(at)[0] == route.paths[0]);
}

/// The first non-empty text of the entries is the text of the first entry,
/// where that text is not empty.
proof fn lemma_filled_paths_start(paths: Seq<PathEntry>)
    requires
        paths.len() > 0,
        paths[0].path.len() > 0,
    ensures
        filled_paths(paths).len() > 0,
        filled_paths(paths)[0] == paths[0].path,
    decreases paths.len(),
{
    if paths.len() == 1 {
        assert(filled_paths(paths.drop_last()) == Seq::<Seq<char>>::empty());
    } else {
        lemma_filled_paths_start(paths.drop_last());
    }
}

/// Texts that are joined start as the first of them starts.
proof fn lemma_join_start(parts: Seq<Seq<char>>, sep: Seq<char>)
    requires
        parts.len() > 0,
        parts[0].len() > 0,
    ensures
        join(parts, sep).len() > 0,
        join(parts, sep)[0] == parts[0][0],
    decreases parts.len(),
{
    if parts.len() > 1 {
        lemma_join_start(parts.drop_last(), sep);
    }
}

/// The path of a well-formed route starts with a slash, and so does what the
/// URI builder gets as path and query.
pub proof fn lemma_path_starts_with_slash(route: RouteView)
    requires
        route.well_formed(),
    ensures
        route.path_text().len() > 0,
        route.path_text()[0] == '/',
        route.path_and_query()[0] == '/',
{
    lemma_filled_paths_start(route.paths);
    lemma_join_start(filled_paths(route.paths), seq!['/']);
}

} // verus!
