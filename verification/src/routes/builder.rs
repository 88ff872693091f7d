//! The route builder.

use crate::routes::errors::RouteError;
use crate::routes::laws::lemma_entry_keeps_well_formed;
use crate::routes::model::{filled_paths, insert_by_weight, root_entry, PathEntry, RouteView};
use crate::routes::path::ApiRoutePath;
use crate::text::{collapse_double_slash, join_strings, texts};
use crate::uri::assemble_uri;
use crate::weight::{clamp_weight, MAX_WEIGHT, ROOT_WEIGHT};
use std::fmt::Display;
use vstd::prelude::*;
use vstd::string::to_string_from_display_ensures;

verus! {

/// Builds a URI from a host, path entries, parameters and a scheme. Every
/// step takes the builder and gives it back, so that steps can be chained.
pub trait RouteBuilder<'a>: Sized {
    /// A builder for the host `host`.
    fn new(host: &'a str) -> Self;

    /// Tries to build the URI.
    fn build(self) -> Result<http::Uri, RouteError>;

    /// Adds the parameter `name` with the value `value`.
    fn with_param<T: Display>(self, name: &'a str, value: T) -> Self;

    /// Adds a path entry without a weight of its own.
    fn with_path(self, path: &'a str) -> Self;

    /// Adds a path entry with the weight `weight`.
    fn with_path_weight(self, path: &'a str, weight: u32) -> Self;

    /// Sets the scheme.
    fn with_scheme(self, scheme: &'a str) -> Self;
}

/// A route under construction.
pub struct ApiRouteBuilder<'a> {
    hostname: &'a str,
    parameters: Vec<String>,
    scheme: Option<String>,
    sub_paths: Vec<ApiRoutePath>,
}

/// The entries of a vector of path entries, as values.
pub open spec fn entries(paths: Seq<ApiRoutePath>) -> Seq<PathEntry> {
    paths.map_values(|p: ApiRoutePath| p@)
}

impl<'a> View for ApiRouteBuilder<'a> {
    type V = RouteView;

    closed spec fn view(&self) -> RouteView {
        RouteView {
            host: self.hostname@,
            params: texts(self.parameters@),
            scheme: match self.scheme {
                Some(s) => Some(s@),
                None => None,
            },
            paths: entries(self.sub_paths@),
        }
    }
}

impl<'a> ApiRouteBuilder<'a> {
    /// The root entry stands first, and the path entries are sorted by
    /// weight.
    #[verifier::type_invariant]
    spec fn is_well_formed(self) -> bool {
        self@.well_formed()
    }

    /// The builder with the parameter `"{name}={value}"` behind those it has.
    pub fn insert_param(self, name: &str, value: &str) -> (res: Self)
        ensures
            res@ == self@.with_param(name@, value@),
            res@.well_formed(),
    {
        proof {
            use_type_invariant(&self);
            reveal_strlit("=");
        }
        let ApiRouteBuilder { hostname, mut parameters, scheme, sub_paths } = self;
        let mut param = name.to_owned();
        param.append("=");
        assert("="@ == seq!['=']);
        param.append(value);
        let ghost before = parameters@;
        parameters.push(param);
        assert(texts(parameters@) == texts(before).push(param@));
        ApiRouteBuilder { hostname, parameters, scheme, sub_paths }
    }

    /// The builder with one more path entry, of text `path`. Its weight is
    /// `weight`, or the greatest weight where none is given, brought into the
    /// range of weights. The entry comes to stand behind every entry that is
    /// not heavier than it; the entries stay sorted by weight.
    pub fn insert_path(self, path: &str, weight: Option<u32>) -> (res: Self)
        ensures
            res@ == self@.with_entry(path@, weight),
            res@.well_formed(),
    {
        proof {
            use_type_invariant(&self);
            lemma_entry_keeps_well_formed(self@, path@, weight);
        }
        let ApiRouteBuilder { hostname, parameters, scheme, mut sub_paths } = self;
        let weight = clamp_weight(
            match weight {
                Some(bits) => bits,
                None => MAX_WEIGHT,
            },
        );
        let entry = ApiRoutePath::new(path, weight);
        let ghost before = entries(sub_paths@);
        let mut at: usize = sub_paths.len();
        proof {
            assert(before.take(at as int) == before);
            assert(before.skip(at as int) == Seq::<PathEntry>::empty());
            assert(insert_by_weight(before, entry@) + Seq::<PathEntry>::empty()
                == insert_by_weight(before, entry@));
        }
        while at > 0 && sub_paths[at - 1].weight() > weight
            invariant
                at <= sub_paths.len(),
                before == entries(sub_paths@),
                insert_by_weight(before, entry@) == insert_by_weight(
                    before.take(at as int),
                    entry@,
                ) + before.skip(at as int),
                entry@.weight == weight,
            decreases at,
        {
            proof {
                let head = before.take(at as int);
                assert(before[at - 1] == sub_paths@[at - 1]@);
                assert(head.drop_last() == before.take(at - 1));
                assert(head.last() == before[at - 1]);
                assert(before.skip(at - 1) == seq![before[at - 1]] + before.skip(at as int));
                assert(insert_by_weight(head, entry@) == insert_by_weight(
                    before.take(at - 1),
                    entry@,
                ).push(before[at - 1]));
            }
            at -= 1;
        }
        proof {
            let head = before.take(at as int);
            if at > 0 {
                assert(head.last() == before[at - 1]);
                assert(before[at - 1] == sub_paths@[at - 1]@);
            }
            assert(insert_by_weight(head, entry@) == head.push(entry@));
        }
        sub_paths.insert(at, entry);
        proof {
            assert(entries(sub_paths@) == before.take(at as int).push(entry@) + before.skip(
                at as int,
            ));
        }
        ApiRouteBuilder { hostname, parameters, scheme, sub_paths }
    }

    /// The builder with its scheme set to `scheme`, or unset.
    pub fn insert_scheme(self, scheme: Option<String>) -> (res: Self)
        ensures
            res@ == self@.with_scheme(
                match scheme {
                    Some(s) => Some(s@),
                    None => None,
                },
            ),
            res@.well_formed(),
    {
        proof {
            use_type_invariant(&self);
        }
        let ApiRouteBuilder { hostname, parameters, scheme: _, sub_paths } = self;
        ApiRouteBuilder { hostname, parameters, scheme, sub_paths }
    }

    /// The query: the parameters in their order, joined with `&`.
    pub fn parse_params(&self) -> (res: String)
        ensures
            res@ == self@.query_text(),
    {
        proof {
            reveal_strlit("&");
        }
        assert("&"@ == seq!['&']);
        join_strings(&self.parameters, "&")
    }

    /// The path: the entries whose text is not empty, in their order, joined
    /// with slashes, after one pass that collapses doubled slashes.
    pub fn parse_path(&self) -> (res: String)
        ensures
            res@ == self@.path_text(),
    {
        let mut paths: Vec<String> = Vec::new();
        let mut i: usize = 0;
        while i < self.sub_paths.len()
            invariant
                i <= self.sub_paths.len(),
                texts(paths@) == filled_paths(entries(self.sub_paths@).take(i as int)),
            decreases self.sub_paths.len() - i,
        {
            proof {
                let upto = entries(self.sub_paths@).take(i + 1);
                assert(upto.drop_last() == entries(self.sub_paths@).take(i as int));
                assert(upto.last() == self.sub_paths@[i as int]@);
            }
            let entry = &self.sub_paths[i];
            if !entry.is_empty() {
                let ghost before = paths@;
                let text = entry.to_string();
                paths.push(text);
                assert(texts(paths@) == texts(before).push(text@));
            }
            i += 1;
        }
        proof {
            assert(entries(self.sub_paths@).take(i as int) == entries(self.sub_paths@));
            reveal_strlit("/");
        }
        assert("/"@ == seq!['/']);
        let joined = join_strings(&paths, "/");
        collapse_double_slash(joined.as_str())
    }

    /// The scheme: the one that was set, else `https`.
    pub fn parse_scheme(&self) -> (res: String)
        ensures
            res@ == self@.scheme_text(),
    {
        match &self.scheme {
            Some(scheme) => scheme.clone(),
            None => "https".to_owned(),
        }
    }
}

impl<'a> RouteBuilder<'a> for ApiRouteBuilder<'a> {
    /// A builder for `host` with the root entry `"/"` alone, no parameters
    /// and no scheme of its own.
    fn new(host: &'a str) -> (res: Self)
        ensures
            res@ == RouteView::fresh(host@),
            res@.well_formed(),
    {
        proof {
            reveal_strlit("/");
        }
        assert("/"@ == seq!['/']);
        let mut sub_paths: Vec<ApiRoutePath> = Vec::new();
        sub_paths.push(ApiRoutePath::new("/", ROOT_WEIGHT));
        assert(entries(sub_paths@) == seq![root_entry()]);
        let parameters: Vec<String> = Vec::new();
        assert(texts(parameters@) == Seq::<Seq<char>>::empty());
        ApiRouteBuilder { hostname: host, parameters, scheme: None, sub_paths }
    }

    /// Hands the scheme, the host and `"{path}?{query}"` to the URI builder
    /// of the `http` crate, and returns what that makes of them: the URI, or
    /// its error as `InvalidUri`.
    fn build(self) -> (res: Result<http::Uri, RouteError>)
        ensures
            res == self@.uri(),
    {
        proof {
            reveal_strlit("?");
        }
        let scheme = self.parse_scheme();
        let path = self.parse_path();
        let params = self.parse_params();
        let mut path_and_query = path;
        path_and_query.append("?");
        assert("?"@ == seq!['?']);
        path_and_query.append(params.as_str());
        match assemble_uri(scheme.as_str(), self.hostname, path_and_query) {
            Ok(uri) => Ok(uri),
            Err(e) => Err(RouteError::InvalidUri(e)),
        }
    }

    /// Adds the parameter `"{name}={value}"`, with `value` as it displays,
    /// behind the parameters that the builder has.
    fn with_param<T: Display>(self, name: &'a str, value: T) -> (res: Self)
        ensures
            exists|text: String| #[trigger]
                to_string_from_display_ensures::<T>(&value, text) && res@ == self@.with_param(
                    name@,
                    text@,
                ),
            res@.well_formed(),
    {
        proof {
            use_type_invariant(&self);
        }
        let text = value.to_string();
        self.insert_param(name, text.as_str())
    }

    /// Adds a path entry of the greatest weight: it comes to stand behind
    /// every entry whose weight is a number.
    fn with_path(self, path: &'a str) -> (res: Self)
        ensures
            res@ == self@.with_entry(path@, None),
            res@.well_formed(),
    {
        self.insert_path(path, None)
    }

    /// Adds a path entry of weight `weight`, brought into the range of
    /// weights: it comes to stand behind every entry that is not heavier.
    fn with_path_weight(self, path: &'a str, weight: u32) -> (res: Self)
        ensures
            res@ == self@.with_entry(path@, Some(weight)),
            res@.well_formed(),
    {
        self.insert_path(path, Some(weight))
    }

    /// Sets the scheme in place of `https`.
    fn with_scheme(self, scheme: &'a str) -> (res: Self)
        ensures
            res@ == self@.with_scheme(Some(scheme@)),
            res@.well_formed(),
    {
        proof {
            use_type_invariant(&self);
        }
        self.insert_scheme(Some(scheme.to_owned()))
    }
}

} // verus!
