pub mod pagination;
pub mod sorting;

use vstd::prelude::*;

use crate::api::options::pagination::{pagination_request_of, RabbitMqPagination};
use crate::api::options::sorting::RabbitMqSorting;
use crate::api::wire::{pairs_match, WirePairs};

verus! {

/// Composable configuration accepted by every list-style operation.
#[derive(Debug, Clone)]
pub struct RabbitMqRequestOptions {
    pub disable_stats: bool,
    pub pagination: Option<RabbitMqPagination>,
    pub sorting: Option<RabbitMqSorting>,
}

impl Default for RabbitMqRequestOptions {
    /// No stats toggle, no pagination intent, server-default ordering.
    fn default() -> (d: Self)
        ensures
            d.disable_stats == false,
            d.pagination is None,
            d.sorting is None,
    {
        RabbitMqRequestOptions { disable_stats: false, pagination: None, sorting: None }
    }
}

/// The query parameters a whole options object translates into: the
/// pagination block (defaulted when absent), then the sorting block (absent
/// when no sorting was requested), then the stats toggle.
pub open spec fn options_wire_view(o: RabbitMqRequestOptions) -> WirePairs {
    pagination::pagination_wire_view(
        pagination_request_of(
            match o.pagination {
                Option::Some(p) => p,
                Option::None => RabbitMqPagination { page: 1, page_size: None, filter: None },
            },
        ),
    ) + (match o.sorting {
        Option::Some(s) => sorting::sorting_wire_view(s),
        Option::None => Seq::empty(),
    }) + seq![("disable_stats"@, crate::api::wire::bool_str_view(o.disable_stats))]
}

impl RabbitMqRequestOptions {
    /// Translate the whole options object into wire query parameters.
    pub fn query_pairs(self) -> (r: Vec<(String, String)>)
        ensures
            pairs_match(r@, options_wire_view(self)),
    {
        let RabbitMqRequestOptions { disable_stats, pagination, sorting } = self;
        let page_intent = match pagination {
            Some(p) => p,
            None => RabbitMqPagination::default(),
        };
        let mut r = crate::api::options::pagination::RabbitMqPaginationRequest::from(
            page_intent,
        ).query_pairs();
        match sorting {
            Some(s) => {
                let mut tail = s.query_pairs();
                r.append(&mut tail);
            },
            None => {},
        }
        r.push(
            (
                String::from_str("disable_stats"),
                crate::api::wire::bool_to_string(disable_stats),
            ),
        );
        proof {
            assert(pairs_match(r@, options_wire_view(self)));
        }
        r
    }
}

} // verus!
