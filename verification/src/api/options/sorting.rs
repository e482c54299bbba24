use vstd::prelude::*;

use crate::api::wire::{bool_str_view, bool_to_string, pairs_match, WirePairs};

verus! {

/// Sorting intent: an optional sort key and a direction flag. An absent key
/// leaves the ordering to the server.
#[derive(Debug, Clone)]
pub struct RabbitMqSorting {
    pub key: Option<String>,
    pub reversed: bool,
}

/// The query parameters sorting intent translates into: the key as `sort`,
/// omitted when absent, and the direction always, as `sort_reverse`.
pub open spec fn sorting_wire_view(s: RabbitMqSorting) -> WirePairs {
    (match s.key {
        Option::Some(k) => seq![("sort"@, k@)],
        Option::None => Seq::empty(),
    }) + seq![("sort_reverse"@, bool_str_view(s.reversed))]
}

impl RabbitMqSorting {
    /// Render the sorting intent as query parameters.
    pub fn query_pairs(self) -> (r: Vec<(String, String)>)
        ensures
            pairs_match(r@, sorting_wire_view(self)),
    {
        let RabbitMqSorting { key, reversed } = self;
        let mut r: Vec<(String, String)> = Vec::new();
        match key {
            Some(k) => {
                r.push((String::from_str("sort"), k));
            },
            None => {},
        }
        r.push((String::from_str("sort_reverse"), bool_to_string(reversed)));
        proof {
            assert(pairs_match(r@, sorting_wire_view(self)));
        }
        r
    }
}

} // verus!
