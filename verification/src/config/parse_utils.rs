//! Normalisation applied to every path read from a configuration file:
//! a leading `~` path component is expanded to the home directory.

use vstd::prelude::*;
use crate::text::{join_path, joined_path};

verus! {

/// `path` with a leading `~` component replaced by `home`: `~` alone is the
/// home directory, `~/rest` is `rest` under it, anything else is unchanged.
pub open spec fn tilde_resolved(path: Seq<char>, home: Seq<char>) -> Seq<char> {
    if path.len() == 1 && path[0] == '~' {
        home
    } else if path.len() >= 2 && path[0] == '~' && path[1] == '/' {
        joined_path(home, path.skip(2))
    } else {
        path
    }
}

/// Path normalisation helpers.
pub struct ParseUtils {}

impl ParseUtils {
    /// Expands a leading `~` path component to the home directory.
    pub fn parse_path(path: &str, home: &str) -> (r: String)
        ensures
            r@ == tilde_resolved(path@, home@),
    {
        let n = path.unicode_len();
        if n == 1 && path.get_char(0) == '~' {
            home.to_owned()
        } else if n >= 2 && path.get_char(0) == '~' && path.get_char(1) == '/' {
            let rest = path.substring_char(2, n);
            proof {
                assert(rest@ =~= path@.skip(2));
            }
            join_path(home, rest)
        } else {
            path.to_owned()
        }
    }

    /// Expands a leading `~` in an optional path.
    pub fn parse_optional_path(path: &Option<String>, home: &str) -> (r: Option<String>)
        ensures
            match path {
                Some(p) => r matches Some(q) && q@ == tilde_resolved(p@, home@),
                None => r is None,
            },
    {
        match path {
            Some(p) => Some(Self::parse_path(p.as_str(), home)),
            None => None,
        }
    }

    /// Expands a leading `~` in every path of a list, keeping the order.
    pub fn parse_paths(paths: &Vec<String>, home: &str) -> (r: Vec<String>)
        ensures
            r.deep_view() == paths.deep_view().map_values(
                |p: Seq<char>| tilde_resolved(p, home@),
            ),
    {
        let ghost paths_v = paths.deep_view();
        let mut r: Vec<String> = Vec::new();
        let mut i: usize = 0;
        while i < paths.len()
            invariant
                i <= paths@.len(),
                paths_v == paths.deep_view(),
                r@.len() == i,
                forall|j: int| #![auto] 0 <= j < i ==> r@[j]@ == tilde_resolved(paths_v[j], home@),
            decreases paths@.len() - i,
        {
            r.push(Self::parse_path(paths[i].as_str(), home));
            i += 1;
        }
        proof {
            assert(r.deep_view() =~= paths_v.map_values(|p: Seq<char>| tilde_resolved(p, home@)));
        }
        r
    }
}

} // verus!
