//! The mathematical model of a route under construction.

use crate::routes::errors::RouteError;
use crate::text::{collapse_slashes, join};
use crate::uri::uri_from_parts;
use crate::weight::{clamped, MAX_WEIGHT, ROOT_WEIGHT};
use vstd::prelude::*;

verus! {

/// A path entry as a value: its text and its weight.
pub ghost struct PathEntry {
    pub path: Seq<char>,
    pub weight: u32,
}

/// A route under construction as a value.
pub ghost struct RouteView {
    pub host: Seq<char>,
    pub params: Seq<Seq<char>>,
    pub scheme: Option<Seq<char>>,
    pub paths: Seq<PathEntry>,
}

/// The entry with which every route starts: the slash, with the weight zero,
/// which is less than that of every entry that can be inserted.
pub open spec fn root_entry() -> PathEntry {
    PathEntry { path: seq!['/'], weight: ROOT_WEIGHT }
}

/// No entry stands before one of lesser weight.
pub open spec fn sorted_by_weight(paths: Seq<PathEntry>) -> bool {
    forall|i: int, j: int| 0 <= i <= j < paths.len() ==> paths[i].weight <= paths[j].weight
}

/// `paths` with `entry` put in from the back: behind the last entry that is
/// not heavier than it, and so behind every entry of its own weight.
///
/// Where `paths` is sorted this is what a stable sort by weight makes of
/// `paths` followed by `entry`.
pub open spec fn insert_by_weight(paths: Seq<PathEntry>, entry: PathEntry) -> Seq<PathEntry>
    decreases paths.len(),
{
    if paths.len() == 0 {
        seq![entry]
    } else if paths.last().weight <= entry.weight {
        paths.push(entry)
    } else {
        insert_by_weight(paths.drop_last(), entry).push(paths.last())
    }
}

/// The weight with which an entry is inserted: the weight asked for, or the
/// greatest where none is, brought into the range of weights.
pub open spec fn entry_weight(weight: Option<u32>) -> u32 {
    clamped(
        match weight {
            Some(bits) => bits,
            None => MAX_WEIGHT,
        },
    )
}

/// The texts of the entries whose text is not empty, in their order.
pub open spec fn filled_paths(paths: Seq<PathEntry>) -> Seq<Seq<char>>
    decreases paths.len(),
{
    if paths.len() == 0 {
        Seq::empty()
    } else {
        let before = filled_paths(paths.drop_last());
        if paths.last().path.len() == 0 {
            before
        } else {
            before.push(paths.last().path)
        }
    }
}

/// The text of a parameter: `"{name}={value}"`.
pub open spec fn param_text(name: Seq<char>, value: Seq<char>) -> Seq<char> {
    name + seq!['='] + value
}

impl RouteView {
    /// A route as `new` makes it: the root entry alone, no parameters, no
    /// scheme of its own.
    pub open spec fn fresh(host: Seq<char>) -> Self {
        RouteView {
            host,
            params: Seq::empty(),
            scheme: None,
            paths: seq![root_entry()],
        }
    }

    /// What holds of every route that a builder holds: the root entry stands
    /// first, and the entries are sorted by weight.
    pub open spec fn well_formed(self) -> bool {
        &&& self.paths.len() > 0
        &&& self.paths[0] == root_entry()
        &&& sorted_by_weight(self.paths)
    }

    /// The route with one more parameter, behind the others.
    pub open spec fn with_param(self, name: Seq<char>, value: Seq<char>) -> Self {
        RouteView { params: self.params.push(param_text(name, value)), ..self }
    }

    /// The route with one more path entry, put in by its weight.
    pub open spec fn with_entry(self, path: Seq<char>, weight: Option<u32>) -> Self {
        RouteView {
            paths: insert_by_weight(
                self.paths,
                PathEntry { path, weight: entry_weight(weight) },
            ),
            ..self
        }
    }

    /// The route with its scheme set, or unset.
    pub open spec fn with_scheme(self, scheme: Option<Seq<char>>) -> Self {
        RouteView { scheme, ..self }
    }

    /// The scheme of the URI: the one that was set, else `https`.
    pub open spec fn scheme_text(self) -> Seq<char> {
        match self.scheme {
            Some(scheme) => scheme,
            None => "https"@,
        }
    }

    /// The path of the URI: the entries that are not empty, joined with
    /// slashes, after one pass that collapses doubled slashes.
    pub open spec fn path_text(self) -> Seq<char> {
        collapse_slashes(join(filled_paths(self.paths), seq!['/']))
    }

    /// The query of the URI: the parameters, joined with `&`.
    pub open spec fn query_text(self) -> Seq<char> {
        join(self.params, seq!['&'])
    }

    /// The path and the query as the URI builder gets them:
    /// `"{path}?{query}"`.
    pub open spec fn path_and_query(self) -> Seq<char> {
        self.path_text() + seq!['?'] + self.query_text()
    }

    /// What building the route gives: what the URI builder makes of the
    /// scheme, the host, and the path with the query.
    pub open spec fn uri(self) -> Result<http::Uri, RouteError> {
        match uri_from_parts(self.scheme_text(), self.host, self.path_and_query()) {
            Ok(uri) => Ok(uri),
            Err(e) => Err(RouteError::InvalidUri(e)),
        }
    }
}

} // verus!
