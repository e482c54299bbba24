use vstd::prelude::*;

use crate::api::wire::{
    bool_str_view, bool_to_string, dec_str_view, pairs_match, u32_to_dec_string, WirePairs,
};

verus! {

/// Items per page when the caller does not choose a size.
pub const PAGINATION_PAGE_SIZE: u32 = 50;

/// Pagination intent: 1-based page, optional size, optional name filter.
///
/// Constructing a request with `page < 1`, or with a provided size of 0, is
/// a caller error: the translation passes the values through unvalidated.
#[derive(Debug, Clone)]
pub struct RabbitMqPagination {
    pub page: u32,
    pub page_size: Option<u32>,
    pub filter: Option<RabbitMqPaginationFilter>,
}

/// A server-side name predicate: plain substring match or regular expression.
#[derive(Debug, Clone)]
pub enum RabbitMqPaginationFilter {
    StringFilter(String),
    RegexFilter(String),
}

/// The wire form of pagination intent, field for field what is sent.
#[derive(Debug, Clone)]
pub struct RabbitMqPaginationRequest {
    pub page: u32,
    pub page_size: u32,
    pub name: Option<String>,
    pub use_regex: Option<bool>,
}

/// A paginated listing as the server reports it.
#[derive(Debug, Clone)]
pub struct RabbitMqPaginatedResponse<T> {
    pub filtered_count: u32,
    pub item_count: u32,
    pub items: Vec<T>,
    pub page: u32,
    pub page_count: u32,
    pub page_size: u32,
    pub total_count: u32,
}

impl Default for RabbitMqPagination {
    /// First page, server-default size, no filter.
    fn default() -> (d: Self)
        ensures
            d.page == 1,
            d.page_size is None,
            d.filter is None,
    {
        RabbitMqPagination { page: 1, page_size: None, filter: None }
    }
}

/// The translation of pagination intent into its wire form: the page is
/// passed through, an absent size defaults, and the filter splits into the
/// filter string and the regex flag, both absent when no filter was given.
pub open spec fn pagination_request_of(p: RabbitMqPagination) -> RabbitMqPaginationRequest {
    RabbitMqPaginationRequest {
        page: p.page,
        page_size: match p.page_size {
            Option::Some(s) => s,
            Option::None => PAGINATION_PAGE_SIZE,
        },
        name: match p.filter {
            Option::None => Option::None,
            Option::Some(RabbitMqPaginationFilter::StringFilter(s)) => Option::Some(s),
            Option::Some(RabbitMqPaginationFilter::RegexFilter(r)) => Option::Some(r),
        },
        use_regex: match p.filter {
            Option::None => Option::None,
            Option::Some(RabbitMqPaginationFilter::StringFilter(_)) => Option::Some(false),
            Option::Some(RabbitMqPaginationFilter::RegexFilter(_)) => Option::Some(true),
        },
    }
}

impl vstd::std_specs::convert::FromSpecImpl<RabbitMqPagination> for RabbitMqPaginationRequest {
    open spec fn obeys_from_spec() -> bool {
        true
    }

    open spec fn from_spec(v: RabbitMqPagination) -> Self {
        pagination_request_of(v)
    }
}

impl From<RabbitMqPagination> for RabbitMqPaginationRequest {
    /// Deterministic and total: every intent value translates, and equal
    /// intents translate to equal wire forms.
    fn from(value: RabbitMqPagination) -> (r: Self)
        ensures
            r == pagination_request_of(value),
    {
        let RabbitMqPagination { page, page_size, filter } = value;
        let (name, use_regex) = match filter {
            None => (None, None),
            Some(f) => match f {
                RabbitMqPaginationFilter::StringFilter(s) => (Some(s), Some(false)),
                RabbitMqPaginationFilter::RegexFilter(r) => (Some(r), Some(true)),
            },
        };
        let page_size = match page_size {
            Some(s) => s,
            None => PAGINATION_PAGE_SIZE,
        };
        RabbitMqPaginationRequest { page, page_size, name, use_regex }
    }
}

/// The query parameters a wire-form pagination request produces: page and
/// size always, the filter name and regex flag only when present.
pub open spec fn pagination_wire_view(p: RabbitMqPaginationRequest) -> WirePairs {
    seq![("page"@, dec_str_view(p.page as nat)), ("page_size"@, dec_str_view(p.page_size as nat))]
        + (match p.name {
        Option::Some(n) => seq![("name"@, n@)],
        Option::None => Seq::empty(),
    }) + (match p.use_regex {
        Option::Some(b) => seq![("use_regex"@, bool_str_view(b))],
        Option::None => Seq::empty(),
    })
}

impl RabbitMqPaginationRequest {
    /// Render the wire form as query parameters.
    pub fn query_pairs(self) -> (r: Vec<(String, String)>)
        ensures
            pairs_match(r@, pagination_wire_view(self)),
    {
        let RabbitMqPaginationRequest { page, page_size, name, use_regex } = self;
        let mut r: Vec<(String, String)> = Vec::new();
        r.push((String::from_str("page"), u32_to_dec_string(page)));
        r.push((String::from_str("page_size"), u32_to_dec_string(page_size)));
        match name {
            Some(n) => {
                r.push((String::from_str("name"), n));
            },
            None => {},
        }
        match use_regex {
            Some(b) => {
                r.push((String::from_str("use_regex"), bool_to_string(b)));
            },
            None => {},
        }
        proof {
            assert(pairs_match(r@, pagination_wire_view(self)));
        }
        r
    }
}

/// The server's page invariant: the items on a page are exactly as many as
/// the page's item count, and never more than the page size.
impl<T> RabbitMqPaginatedResponse<T> {
    pub open spec fn wf(self) -> bool {
        &&& self.items@.len() == self.item_count
        &&& self.item_count <= self.page_size
    }

    /// Check the page invariant on a decoded listing.
    pub fn check_counts(&self) -> (r: bool)
        ensures
            r == self.wf(),
    {
        self.items.len() == self.item_count as usize && self.item_count <= self.page_size
    }
}

/// With no size and no filter chosen, the wire form carries the page, the
/// default size of 50, and nothing else: no `name` and no `use_regex` key.
pub proof fn lemma_unfiltered_wire_pairs(p: RabbitMqPagination)
    requires
        p.page_size is None,
        p.filter is None,
    ensures
        pagination_wire_view(pagination_request_of(p)) =~= seq![
            ("page"@, dec_str_view(p.page as nat)),
            ("page_size"@, dec_str_view(PAGINATION_PAGE_SIZE as nat)),
        ],
{
}

/// A substring filter translates into its string under `name` and a regex
/// flag of `false`; page and size are untouched.
pub proof fn lemma_string_filter_translation(p: RabbitMqPagination)
    requires
        p.filter matches Some(RabbitMqPaginationFilter::StringFilter(_)),
    ensures
        pagination_request_of(p).name == Some(p.filter->Some_0->StringFilter_0),
        pagination_request_of(p).use_regex == Some(false),
        pagination_request_of(p).page == p.page,
{
}

/// A regular-expression filter translates into its string under `name` and
/// a regex flag of `true`; page and size are untouched.
pub proof fn lemma_regex_filter_translation(p: RabbitMqPagination)
    requires
        p.filter matches Some(RabbitMqPaginationFilter::RegexFilter(_)),
    ensures
        pagination_request_of(p).name == Some(p.filter->Some_0->RegexFilter_0),
        pagination_request_of(p).use_regex == Some(true),
        pagination_request_of(p).page == p.page,
{
}

/// A well-formed page with no items reports an item count of zero, and the
/// other way round.
pub proof fn lemma_empty_page_zero_count<T>(r: RabbitMqPaginatedResponse<T>)
    requires
        r.wf(),
    ensures
        r.items@.len() == 0 <==> r.item_count == 0,
{
}

} // verus!
