//! Current-day product prices: the query, its fluent builder, the query
//! parameters it is sent with, and the errors of the price source.
use vstd::prelude::*;

use crate::text::{
    bool_string, bool_text, decimal, decimal_string, join_strings, joined, string_views,
};

verus! {

/// Sort direction of a price listing.
#[derive(Debug, Clone, Copy, PartialEq, Eq, Structural)]
pub enum SortOrder {
    Asc,
    Desc,
}

/// The text a sort order is sent as.
pub open spec fn sort_order_text(order: SortOrder) -> Seq<char> {
    match order {
        SortOrder::Asc => "asc"@,
        SortOrder::Desc => "desc"@,
    }
}

impl SortOrder {
    pub fn as_str(&self) -> (r: &'static str)
        ensures
            r@ == sort_order_text(*self),
    {
        match self {
            SortOrder::Asc => "asc",
            SortOrder::Desc => "desc",
        }
    }
}

/// The mathematical content of a current-day price query.
pub struct QueryModel {
    pub branch_ids: Seq<Seq<char>>,
    pub order_by: Option<Seq<char>>,
    pub sort_order: Option<SortOrder>,
    pub only_in_my_branches: Option<bool>,
    pub category_id: Option<u64>,
    pub group_by_vendor: Option<bool>,
    pub page: Option<u64>,
    pub size: Option<u64>,
}

/// The query with nothing set.
pub open spec fn empty_query() -> QueryModel {
    QueryModel {
        branch_ids: seq![],
        order_by: None,
        sort_order: None,
        only_in_my_branches: None,
        category_id: None,
        group_by_vendor: None,
        page: None,
        size: None,
    }
}

pub open spec fn optional_text(o: Option<String>) -> Option<Seq<char>> {
    match o {
        Some(s) => Some(s@),
        None => None,
    }
}

/// A query for the current-day prices of products in some branches.
#[derive(Debug, Clone, PartialEq, Eq)]
pub struct ProductPricesCurrentDayQuery {
    pub branch_ids: Vec<String>,
    pub order_by: Option<String>,
    pub sort_order: Option<SortOrder>,
    pub only_in_my_branches: Option<bool>,
    pub category_id: Option<u64>,
    pub group_by_vendor: Option<bool>,
    pub page: Option<u64>,
    pub size: Option<u64>,
}

impl View for ProductPricesCurrentDayQuery {
    type V = QueryModel;

    open spec fn view(&self) -> QueryModel {
        QueryModel {
            branch_ids: string_views(self.branch_ids@),
            order_by: optional_text(self.order_by),
            sort_order: self.sort_order,
            only_in_my_branches: self.only_in_my_branches,
            category_id: self.category_id,
            group_by_vendor: self.group_by_vendor,
            page: self.page,
            size: self.size,
        }
    }
}

/// One query parameter when `o` holds a value, none otherwise.
pub open spec fn optional_param(key: Seq<char>, o: Option<Seq<char>>) -> Seq<(Seq<char>, Seq<char>)> {
    match o {
        Some(v) => seq![(key, v)],
        None => seq![],
    }
}

pub open spec fn optional_bool_text(o: Option<bool>) -> Option<Seq<char>> {
    match o {
        Some(b) => Some(bool_text(b)),
        None => None,
    }
}

pub open spec fn optional_number_text(o: Option<u64>) -> Option<Seq<char>> {
    match o {
        Some(n) => Some(decimal(n as nat)),
        None => None,
    }
}

pub open spec fn optional_sort_text(o: Option<SortOrder>) -> Option<Seq<char>> {
    match o {
        Some(s) => Some(sort_order_text(s)),
        None => None,
    }
}

/// The query parameters a query is sent with, in this order: `branchIds`
/// (the ids joined with `,`, when there is at least one), `orderBy`,
/// `sortOrder`, `onlyInMyBranches`, `categoryId`, `groupByVendor`, `page`,
/// `size`, each present exactly when the query sets it.
pub open spec fn query_params(q: QueryModel) -> Seq<(Seq<char>, Seq<char>)> {
    (if q.branch_ids.len() > 0 {
        seq![("branchIds"@, joined(q.branch_ids, ","@))]
    } else {
        seq![]
    }) + optional_param("orderBy"@, q.order_by) + optional_param(
        "sortOrder"@,
        optional_sort_text(q.sort_order),
    ) + optional_param("onlyInMyBranches"@, optional_bool_text(q.only_in_my_branches))
        + optional_param("categoryId"@, optional_number_text(q.category_id)) + optional_param(
        "groupByVendor"@,
        optional_bool_text(q.group_by_vendor),
    ) + optional_param("page"@, optional_number_text(q.page)) + optional_param(
        "size"@,
        optional_number_text(q.size),
    )
}

/// Law: a query with nothing set is sent without any parameter.
pub proof fn lemma_empty_query_sends_no_params()
    ensures
        query_params(empty_query()) == Seq::<(Seq<char>, Seq<char>)>::empty(),
{
    assert(query_params(empty_query()) =~= Seq::<(Seq<char>, Seq<char>)>::empty());
}

/// Law: a query with at least one branch id is sent with `branchIds` as its
/// first parameter, holding the ids joined with `,`.
pub proof fn lemma_branch_ids_lead_the_params(q: QueryModel)
    requires
        q.branch_ids.len() > 0,
    ensures
        query_params(q).len() > 0,
        query_params(q)[0] == ("branchIds"@, joined(q.branch_ids, ","@)),
{
}

/// The views of a list of key/value string pairs.
pub open spec fn pair_views(v: Seq<(String, String)>) -> Seq<(Seq<char>, Seq<char>)> {
    v.map_values(|p: (String, String)| (p.0@, p.1@))
}

fn push_param(params: &mut Vec<(String, String)>, key: &str, value: String)
    ensures
        pair_views(final(params)@) == pair_views(old(params)@) + seq![(key@, value@)],
{
    let ghost before = params@;
    params.push((String::from_str(key), value));
    assert(pair_views(params@) =~= pair_views(before) + seq![(key@, value@)]);
}

impl ProductPricesCurrentDayQuery {
    pub fn builder() -> (r: ProductPricesCurrentDayQueryBuilder)
        ensures
            r@ == empty_query(),
    {
        ProductPricesCurrentDayQueryBuilder::new()
    }

    /// The query parameters this query is sent with.
    pub fn to_query_params(&self) -> (r: Vec<(String, String)>)
        ensures
            pair_views(r@) == query_params(self@),
    {
        let ghost m = self@;
        let mut params: Vec<(String, String)> = Vec::new();
        if self.branch_ids.len() > 0 {
            push_param(&mut params, "branchIds", join_strings(&self.branch_ids, ","));
        }
        let ghost p1 = pair_views(params@);
        assert(p1 =~= (if m.branch_ids.len() > 0 {
            seq![("branchIds"@, joined(m.branch_ids, ","@))]
        } else {
            seq![]
        }));
        push_text(&mut params, "orderBy", &self.order_by);
        push_sort(&mut params, "sortOrder", self.sort_order);
        push_bool(&mut params, "onlyInMyBranches", self.only_in_my_branches);
        push_number(&mut params, "categoryId", self.category_id);
        push_bool(&mut params, "groupByVendor", self.group_by_vendor);
        push_number(&mut params, "page", self.page);
        push_number(&mut params, "size", self.size);
        params
    }
}

/// The pairs of `params` whose key is `name`, in order.
pub open spec fn params_named(params: Seq<(Seq<char>, Seq<char>)>, name: Seq<char>) -> Seq<
    (Seq<char>, Seq<char>),
> {
    params.filter(|p: (Seq<char>, Seq<char>)| p.0 == name)
}

/// One pair `(name, value)` when `value` is given, none otherwise.
pub open spec fn sent(name: Seq<char>, value: Option<Seq<char>>) -> Seq<(Seq<char>, Seq<char>)> {
    match value {
        Some(v) => seq![(name, v)],
        None => seq![],
    }
}

/// Whether `key` is the key of one of the eight query parameters.
pub open spec fn is_query_key(key: Seq<char>) -> bool {
    ||| key == "branchIds"@
    ||| key == "orderBy"@
    ||| key == "sortOrder"@
    ||| key == "onlyInMyBranches"@
    ||| key == "categoryId"@
    ||| key == "groupByVendor"@
    ||| key == "page"@
    ||| key == "size"@
}

proof fn lemma_named_distributes(
    a: Seq<(Seq<char>, Seq<char>)>,
    b: Seq<(Seq<char>, Seq<char>)>,
    name: Seq<char>,
)
    ensures
        params_named(a + b, name) == params_named(a, name) + params_named(b, name),
{
    Seq::filter_distributes_over_add(a, b, |p: (Seq<char>, Seq<char>)| p.0 == name);
}

proof fn lemma_named_segment(key: Seq<char>, value: Option<Seq<char>>, name: Seq<char>)
    ensures
        params_named(optional_param(key, value), name) == (if key == name {
            optional_param(key, value)
        } else {
            Seq::<(Seq<char>, Seq<char>)>::empty()
        }),
{
    reveal_with_fuel(Seq::filter, 2);
    match value {
        Some(v) => {
            assert(seq![(key, v)].drop_last() =~= Seq::<(Seq<char>, Seq<char>)>::empty());
        },
        None => {},
    }
}

proof fn lemma_named_in_query(q: QueryModel, name: Seq<char>)
    ensures
        params_named(query_params(q), name) == (if name == "branchIds"@ {
            optional_param(
                "branchIds"@,
                if q.branch_ids.len() > 0 {
                    Some(joined(q.branch_ids, ","@))
                } else {
                    None
                },
            )
        } else {
            Seq::empty()
        }) + (if name == "orderBy"@ {
            optional_param("orderBy"@, q.order_by)
        } else {
            Seq::empty()
        }) + (if name == "sortOrder"@ {
            optional_param("sortOrder"@, optional_sort_text(q.sort_order))
        } else {
            Seq::empty()
        }) + (if name == "onlyInMyBranches"@ {
            optional_param("onlyInMyBranches"@, optional_bool_text(q.only_in_my_branches))
        } else {
            Seq::empty()
        }) + (if name == "categoryId"@ {
            optional_param("categoryId"@, optional_number_text(q.category_id))
        } else {
            Seq::empty()
        }) + (if name == "groupByVendor"@ {
            optional_param("groupByVendor"@, optional_bool_text(q.group_by_vendor))
        } else {
            Seq::empty()
        }) + (if name == "page"@ {
            optional_param("page"@, optional_number_text(q.page))
        } else {
            Seq::empty()
        }) + (if name == "size"@ {
            optional_param("size"@, optional_number_text(q.size))
        } else {
            Seq::empty()
        }),
{
    let s0 = optional_param(
        "branchIds"@,
        if q.branch_ids.len() > 0 {
            Some(joined(q.branch_ids, ","@))
        } else {
            None
        },
    );
    let s1 = optional_param("orderBy"@, q.order_by);
    let s2 = optional_param("sortOrder"@, optional_sort_text(q.sort_order));
    let s3 = optional_param("onlyInMyBranches"@, optional_bool_text(q.only_in_my_branches));
    let s4 = optional_param("categoryId"@, optional_number_text(q.category_id));
    let s5 = optional_param("groupByVendor"@, optional_bool_text(q.group_by_vendor));
    let s6 = optional_param("page"@, optional_number_text(q.page));
    let s7 = optional_param("size"@, optional_number_text(q.size));
    assert(query_params(q) == s0 + s1 + s2 + s3 + s4 + s5 + s6 + s7);
    lemma_named_distributes(s0 + s1 + s2 + s3 + s4 + s5 + s6, s7, name);
    lemma_named_distributes(s0 + s1 + s2 + s3 + s4 + s5, s6, name);
    lemma_named_distributes(s0 + s1 + s2 + s3 + s4, s5, name);
    lemma_named_distributes(s0 + s1 + s2 + s3, s4, name);
    lemma_named_distributes(s0 + s1 + s2, s3, name);
    lemma_named_distributes(s0 + s1, s2, name);
    lemma_named_distributes(s0, s1, name);
    lemma_named_segment("branchIds"@, if q.branch_ids.len() > 0 {
        Some(joined(q.branch_ids, ","@))
    } else {
        None
    }, name);
    lemma_named_segment("orderBy"@, q.order_by, name);
    lemma_named_segment("sortOrder"@, optional_sort_text(q.sort_order), name);
    lemma_named_segment("onlyInMyBranches"@, optional_bool_text(q.only_in_my_branches), name);
    lemma_named_segment("categoryId"@, optional_number_text(q.category_id), name);
    lemma_named_segment("groupByVendor"@, optional_bool_text(q.group_by_vendor), name);
    lemma_named_segment("page"@, optional_number_text(q.page), name);
    lemma_named_segment("size"@, optional_number_text(q.size), name);
}

proof fn lemma_sends_branch_ids(q: QueryModel)
    ensures
        params_named(query_params(q), "branchIds"@) == optional_param("branchIds"@, if q.branch_ids.len() > 0 { Some(joined(q.branch_ids, ","@)) } else { None }),
{
    reveal_strlit("branchIds");
    reveal_strlit("orderBy");
    reveal_strlit("sortOrder");
    reveal_strlit("onlyInMyBranches");
    reveal_strlit("categoryId");
    reveal_strlit("groupByVendor");
    reveal_strlit("page");
    reveal_strlit("size");
    assert("branchIds"@.len() == 9 && "branchIds"@[0] == 'b');
    assert("orderBy"@.len() == 7);
    assert("sortOrder"@.len() == 9 && "sortOrder"@[0] == 's');
    assert("onlyInMyBranches"@.len() == 16);
    assert("categoryId"@.len() == 10);
    assert("groupByVendor"@.len() == 13);
    assert("page"@.len() == 4 && "page"@[0] == 'p');
    assert("size"@.len() == 4 && "size"@[0] == 's');
    lemma_named_in_query(q, "branchIds"@);
    assert(params_named(query_params(q), "branchIds"@) =~= optional_param("branchIds"@, if q.branch_ids.len() > 0 { Some(joined(q.branch_ids, ","@)) } else { None }));
}

proof fn lemma_sends_order_by(q: QueryModel)
    ensures
        params_named(query_params(q), "orderBy"@) == optional_param("orderBy"@, q.order_by),
{
    reveal_strlit("branchIds");
    reveal_strlit("orderBy");
    reveal_strlit("sortOrder");
    reveal_strlit("onlyInMyBranches");
    reveal_strlit("categoryId");
    reveal_strlit("groupByVendor");
    reveal_strlit("page");
    reveal_strlit("size");
    assert("branchIds"@.len() == 9 && "branchIds"@[0] == 'b');
    assert("orderBy"@.len() == 7);
    assert("sortOrder"@.len() == 9 && "sortOrder"@[0] == 's');
    assert("onlyInMyBranches"@.len() == 16);
    assert("categoryId"@.len() == 10);
    assert("groupByVendor"@.len() == 13);
    assert("page"@.len() == 4 && "page"@[0] == 'p');
    assert("size"@.len() == 4 && "size"@[0] == 's');
    lemma_named_in_query(q, "orderBy"@);
    assert(params_named(query_params(q), "orderBy"@) =~= optional_param("orderBy"@, q.order_by));
}

proof fn lemma_sends_sort_order(q: QueryModel)
    ensures
        params_named(query_params(q), "sortOrder"@) == optional_param("sortOrder"@, optional_sort_text(q.sort_order)),
{
    reveal_strlit("branchIds");
    reveal_strlit("orderBy");
    reveal_strlit("sortOrder");
    reveal_strlit("onlyInMyBranches");
    reveal_strlit("categoryId");
    reveal_strlit("groupByVendor");
    reveal_strlit("page");
    reveal_strlit("size");
    assert("branchIds"@.len() == 9 && "branchIds"@[0] == 'b');
    assert("orderBy"@.len() == 7);
    assert("sortOrder"@.len() == 9 && "sortOrder"@[0] == 's');
    assert("onlyInMyBranches"@.len() == 16);
    assert("categoryId"@.len() == 10);
    assert("groupByVendor"@.len() == 13);
    assert("page"@.len() == 4 && "page"@[0] == 'p');
    assert("size"@.len() == 4 && "size"@[0] == 's');
    lemma_named_in_query(q, "sortOrder"@);
    assert(params_named(query_params(q), "sortOrder"@) =~= optional_param("sortOrder"@, optional_sort_text(q.sort_order)));
}

proof fn lemma_sends_only_in_my_branches(q: QueryModel)
    ensures
        params_named(query_params(q), "onlyInMyBranches"@) == optional_param("onlyInMyBranches"@, optional_bool_text(q.only_in_my_branches)),
{
    reveal_strlit("branchIds");
    reveal_strlit("orderBy");
    reveal_strlit("sortOrder");
    reveal_strlit("onlyInMyBranches");
    reveal_strlit("categoryId");
    reveal_strlit("groupByVendor");
    reveal_strlit("page");
    reveal_strlit("size");
    assert("branchIds"@.len() == 9 && "branchIds"@[0] == 'b');
    assert("orderBy"@.len() == 7);
    assert("sortOrder"@.len() == 9 && "sortOrder"@[0] == 's');
    assert("onlyInMyBranches"@.len() == 16);
    assert("categoryId"@.len() == 10);
    assert("groupByVendor"@.len() == 13);
    assert("page"@.len() == 4 && "page"@[0] == 'p');
    assert("size"@.len() == 4 && "size"@[0] == 's');
    lemma_named_in_query(q, "onlyInMyBranches"@);
    assert(params_named(query_params(q), "onlyInMyBranches"@) =~= optional_param("onlyInMyBranches"@, optional_bool_text(q.only_in_my_branches)));
}

proof fn lemma_sends_category_id(q: QueryModel)
    ensures
        params_named(query_params(q), "categoryId"@) == optional_param("categoryId"@, optional_number_text(q.category_id)),
{
    reveal_strlit("branchIds");
    reveal_strlit("orderBy");
    reveal_strlit("sortOrder");
    reveal_strlit("onlyInMyBranches");
    reveal_strlit("categoryId");
    reveal_strlit("groupByVendor");
    reveal_strlit("page");
    reveal_strlit("size");
    assert("branchIds"@.len() == 9 && "branchIds"@[0] == 'b');
    assert("orderBy"@.len() == 7);
    assert("sortOrder"@.len() == 9 && "sortOrder"@[0] == 's');
    assert("onlyInMyBranches"@.len() == 16);
    assert("categoryId"@.len() == 10);
    assert("groupByVendor"@.len() == 13);
    assert("page"@.len() == 4 && "page"@[0] == 'p');
    assert("size"@.len() == 4 && "size"@[0] == 's');
    lemma_named_in_query(q, "categoryId"@);
    assert(params_named(query_params(q), "categoryId"@) =~= optional_param("categoryId"@, optional_number_text(q.category_id)));
}

proof fn lemma_sends_group_by_vendor(q: QueryModel)
    ensures
        params_named(query_params(q), "groupByVendor"@) == optional_param("groupByVendor"@, optional_bool_text(q.group_by_vendor)),
{
    reveal_strlit("branchIds");
    reveal_strlit("orderBy");
    reveal_strlit("sortOrder");
    reveal_strlit("onlyInMyBranches");
    reveal_strlit("categoryId");
    reveal_strlit("groupByVendor");
    reveal_strlit("page");
    reveal_strlit("size");
    assert("branchIds"@.len() == 9 && "branchIds"@[0] == 'b');
    assert("orderBy"@.len() == 7);
    assert("sortOrder"@.len() == 9 && "sortOrder"@[0] == 's');
    assert("onlyInMyBranches"@.len() == 16);
    assert("categoryId"@.len() == 10);
    assert("groupByVendor"@.len() == 13);
    assert("page"@.len() == 4 && "page"@[0] == 'p');
    assert("size"@.len() == 4 && "size"@[0] == 's');
    lemma_named_in_query(q, "groupByVendor"@);
    assert(params_named(query_params(q), "groupByVendor"@) =~= optional_param("groupByVendor"@, optional_bool_text(q.group_by_vendor)));
}

proof fn lemma_sends_page(q: QueryModel)
    ensures
        params_named(query_params(q), "page"@) == optional_param("page"@, optional_number_text(q.page)),
{
    reveal_strlit("branchIds");
    reveal_strlit("orderBy");
    reveal_strlit("sortOrder");
    reveal_strlit("onlyInMyBranches");
    reveal_strlit("categoryId");
    reveal_strlit("groupByVendor");
    reveal_strlit("page");
    reveal_strlit("size");
    assert("branchIds"@.len() == 9 && "branchIds"@[0] == 'b');
    assert("orderBy"@.len() == 7);
    assert("sortOrder"@.len() == 9 && "sortOrder"@[0] == 's');
    assert("onlyInMyBranches"@.len() == 16);
    assert("categoryId"@.len() == 10);
    assert("groupByVendor"@.len() == 13);
    assert("page"@.len() == 4 && "page"@[0] == 'p');
    assert("size"@.len() == 4 && "size"@[0] == 's');
    lemma_named_in_query(q, "page"@);
    assert(params_named(query_params(q), "page"@) =~= optional_param("page"@, optional_number_text(q.page)));
}

proof fn lemma_sends_size(q: QueryModel)
    ensures
        params_named(query_params(q), "size"@) == optional_param("size"@, optional_number_text(q.size)),
{
    reveal_strlit("branchIds");
    reveal_strlit("orderBy");
    reveal_strlit("sortOrder");
    reveal_strlit("onlyInMyBranches");
    reveal_strlit("categoryId");
    reveal_strlit("groupByVendor");
    reveal_strlit("page");
    reveal_strlit("size");
    assert("branchIds"@.len() == 9 && "branchIds"@[0] == 'b');
    assert("orderBy"@.len() == 7);
    assert("sortOrder"@.len() == 9 && "sortOrder"@[0] == 's');
    assert("onlyInMyBranches"@.len() == 16);
    assert("categoryId"@.len() == 10);
    assert("groupByVendor"@.len() == 13);
    assert("page"@.len() == 4 && "page"@[0] == 'p');
    assert("size"@.len() == 4 && "size"@[0] == 's');
    lemma_named_in_query(q, "size"@);
    assert(params_named(query_params(q), "size"@) =~= optional_param("size"@, optional_number_text(q.size)));
}

proof fn lemma_query_keys(q: QueryModel)
    ensures
        forall|i: int| 0 <= i < query_params(q).len() ==> is_query_key(#[trigger] query_params(q)[i].0),
{
    reveal_strlit("branchIds");
    reveal_strlit("orderBy");
    reveal_strlit("sortOrder");
    reveal_strlit("onlyInMyBranches");
    reveal_strlit("categoryId");
    reveal_strlit("groupByVendor");
    reveal_strlit("page");
    reveal_strlit("size");
    assert("branchIds"@.len() == 9 && "branchIds"@[0] == 'b');
    assert("orderBy"@.len() == 7);
    assert("sortOrder"@.len() == 9 && "sortOrder"@[0] == 's');
    assert("onlyInMyBranches"@.len() == 16);
    assert("categoryId"@.len() == 10);
    assert("groupByVendor"@.len() == 13);
    assert("page"@.len() == 4 && "page"@[0] == 'p');
    assert("size"@.len() == 4 && "size"@[0] == 's');
}

proof fn lemma_query_sends_branch_ids(query: ProductPricesCurrentDayQuery, params: Vec<(String, String)>)
    requires
        call_ensures(ProductPricesCurrentDayQuery::to_query_params, (&query,), params),
    ensures
        params_named(pair_views(params@), "branchIds"@) == (if query.branch_ids@.len() > 0 {
            seq![("branchIds"@, joined(string_views(query.branch_ids@), ","@))]
        } else {
            seq![]
        }),
{
    lemma_sends_branch_ids(query@);
}

proof fn lemma_query_sends_order_by(query: ProductPricesCurrentDayQuery, params: Vec<(String, String)>)
    requires
        call_ensures(ProductPricesCurrentDayQuery::to_query_params, (&query,), params),
    ensures
        params_named(pair_views(params@), "orderBy"@) == sent(
            "orderBy"@,
            match query.order_by {
                Some(v) => Some(v@),
                None => None,
            },
        ),
{
    lemma_sends_order_by(query@);
}

proof fn lemma_query_sends_sort_order(query: ProductPricesCurrentDayQuery, params: Vec<(String, String)>)
    requires
        call_ensures(ProductPricesCurrentDayQuery::to_query_params, (&query,), params),
    ensures
        params_named(pair_views(params@), "sortOrder"@) == sent(
            "sortOrder"@,
            match query.sort_order {
                Some(SortOrder::Asc) => Some("asc"@),
                Some(SortOrder::Desc) => Some("desc"@),
                None => None,
            },
        ),
{
    lemma_sends_sort_order(query@);
}

proof fn lemma_query_sends_only_in_my_branches(query: ProductPricesCurrentDayQuery, params: Vec<(String, String)>)
    requires
        call_ensures(ProductPricesCurrentDayQuery::to_query_params, (&query,), params),
    ensures
        params_named(pair_views(params@), "onlyInMyBranches"@) == sent(
            "onlyInMyBranches"@,
            match query.only_in_my_branches {
                Some(b) => Some(bool_text(b)),
                None => None,
            },
        ),
{
    lemma_sends_only_in_my_branches(query@);
}

proof fn lemma_query_sends_category_id(query: ProductPricesCurrentDayQuery, params: Vec<(String, String)>)
    requires
        call_ensures(ProductPricesCurrentDayQuery::to_query_params, (&query,), params),
    ensures
        params_named(pair_views(params@), "categoryId"@) == sent(
            "categoryId"@,
            match query.category_id {
                Some(n) => Some(decimal(n as nat)),
                None => None,
            },
        ),
{
    lemma_sends_category_id(query@);
}

proof fn lemma_query_sends_group_by_vendor(query: ProductPricesCurrentDayQuery, params: Vec<(String, String)>)
    requires
        call_ensures(ProductPricesCurrentDayQuery::to_query_params, (&query,), params),
    ensures
        params_named(pair_views(params@), "groupByVendor"@) == sent(
            "groupByVendor"@,
            match query.group_by_vendor {
                Some(b) => Some(bool_text(b)),
                None => None,
            },
        ),
{
    lemma_sends_group_by_vendor(query@);
}

proof fn lemma_query_sends_page(query: ProductPricesCurrentDayQuery, params: Vec<(String, String)>)
    requires
        call_ensures(ProductPricesCurrentDayQuery::to_query_params, (&query,), params),
    ensures
        params_named(pair_views(params@), "page"@) == sent(
            "page"@,
            match query.page {
                Some(n) => Some(decimal(n as nat)),
                None => None,
            },
        ),
{
    lemma_sends_page(query@);
}

proof fn lemma_query_sends_size(query: ProductPricesCurrentDayQuery, params: Vec<(String, String)>)
    requires
        call_ensures(ProductPricesCurrentDayQuery::to_query_params, (&query,), params),
    ensures
        params_named(pair_views(params@), "size"@) == sent(
            "size"@,
            match query.size {
                Some(n) => Some(decimal(n as nat)),
                None => None,
            },
        ),
{
    lemma_sends_size(query@);
}

proof fn lemma_query_sends_known_keys(query: ProductPricesCurrentDayQuery, params: Vec<(String, String)>)
    requires
        call_ensures(ProductPricesCurrentDayQuery::to_query_params, (&query,), params),
    ensures
        forall|i: int|
            0 <= i < params@.len() ==> is_query_key(#[trigger] pair_views(params@)[i].0),
{
    lemma_query_keys(query@);
    assert forall|i: int| 0 <= i < params@.len() implies is_query_key(
        #[trigger] pair_views(params@)[i].0,
    ) by {
        assert(pair_views(params@)[i] == query_params(query@)[i]);
    }
}

/// Law: a query sends each of its eight fields exactly when it is set, once,
/// under its own key and with its value: the branch ids (when there is at
/// least one) joined with `,`, the sort order as `asc` or `desc`, flags as
/// `true` or `false`, numbers in decimal; and it sends no other key.
pub proof fn lemma_query_params_send_each_set_field(
    query: ProductPricesCurrentDayQuery,
    params: Vec<(String, String)>,
)
    requires
        call_ensures(ProductPricesCurrentDayQuery::to_query_params, (&query,), params),
    ensures
        params_named(pair_views(params@), "branchIds"@) == (if query.branch_ids@.len() > 0 {
            seq![("branchIds"@, joined(string_views(query.branch_ids@), ","@))]
        } else {
            seq![]
        }),
        params_named(pair_views(params@), "orderBy"@) == sent(
            "orderBy"@,
            match query.order_by {
                Some(v) => Some(v@),
                None => None,
            },
        ),
        params_named(pair_views(params@), "sortOrder"@) == sent(
            "sortOrder"@,
            match query.sort_order {
                Some(SortOrder::Asc) => Some("asc"@),
                Some(SortOrder::Desc) => Some("desc"@),
                None => None,
            },
        ),
        params_named(pair_views(params@), "onlyInMyBranches"@) == sent(
            "onlyInMyBranches"@,
            match query.only_in_my_branches {
                Some(b) => Some(bool_text(b)),
                None => None,
            },
        ),
        params_named(pair_views(params@), "categoryId"@) == sent(
            "categoryId"@,
            match query.category_id {
                Some(n) => Some(decimal(n as nat)),
                None => None,
            },
        ),
        params_named(pair_views(params@), "groupByVendor"@) == sent(
            "groupByVendor"@,
            match query.group_by_vendor {
                Some(b) => Some(bool_text(b)),
                None => None,
            },
        ),
        params_named(pair_views(params@), "page"@) == sent(
            "page"@,
            match query.page {
                Some(n) => Some(decimal(n as nat)),
                None => None,
            },
        ),
        params_named(pair_views(params@), "size"@) == sent(
            "size"@,
            match query.size {
                Some(n) => Some(decimal(n as nat)),
                None => None,
            },
        ),
        forall|i: int|
            0 <= i < params@.len() ==> is_query_key(#[trigger] pair_views(params@)[i].0),
{
    lemma_query_sends_branch_ids(query, params);
    lemma_query_sends_order_by(query, params);
    lemma_query_sends_sort_order(query, params);
    lemma_query_sends_only_in_my_branches(query, params);
    lemma_query_sends_category_id(query, params);
    lemma_query_sends_group_by_vendor(query, params);
    lemma_query_sends_page(query, params);
    lemma_query_sends_size(query, params);
    lemma_query_sends_known_keys(query, params);
}

fn push_text(params: &mut Vec<(String, String)>, key: &str, o: &Option<String>)
    ensures
        pair_views(final(params)@) == pair_views(old(params)@) + optional_param(key@, optional_text(*o)),
{
    match o {
        Some(v) => push_param(params, key, v.clone()),
        None => {
            assert(pair_views(params@) =~= pair_views(params@) + seq![]);
        },
    }
}

fn push_sort(params: &mut Vec<(String, String)>, key: &str, o: Option<SortOrder>)
    ensures
        pair_views(final(params)@) == pair_views(old(params)@) + optional_param(
            key@,
            optional_sort_text(o),
        ),
{
    match o {
        Some(v) => push_param(params, key, String::from_str(v.as_str())),
        None => {
            assert(pair_views(params@) =~= pair_views(params@) + seq![]);
        },
    }
}

fn push_bool(params: &mut Vec<(String, String)>, key: &str, o: Option<bool>)
    ensures
        pair_views(final(params)@) == pair_views(old(params)@) + optional_param(
            key@,
            optional_bool_text(o),
        ),
{
    match o {
        Some(v) => push_param(params, key, bool_string(v)),
        None => {
            assert(pair_views(params@) =~= pair_views(params@) + seq![]);
        },
    }
}

fn push_number(params: &mut Vec<(String, String)>, key: &str, o: Option<u64>)
    ensures
        pair_views(final(params)@) == pair_views(old(params)@) + optional_param(
            key@,
            optional_number_text(o),
        ),
{
    match o {
        Some(v) => push_param(params, key, decimal_string(v)),
        None => {
            assert(pair_views(params@) =~= pair_views(params@) + seq![]);
        },
    }
}

impl Default for ProductPricesCurrentDayQuery {
    fn default() -> (r: Self)
        ensures
            r@ == empty_query(),
    {
        let r = ProductPricesCurrentDayQuery {
            branch_ids: Vec::new(),
            order_by: None,
            sort_order: None,
            only_in_my_branches: None,
            category_id: None,
            group_by_vendor: None,
            page: None,
            size: None,
        };
        assert(r@.branch_ids =~= seq![]);
        r
    }
}

/// Fluent builder of a [`ProductPricesCurrentDayQuery`].
#[derive(Debug, Clone, PartialEq, Eq)]
pub struct ProductPricesCurrentDayQueryBuilder {
    query: ProductPricesCurrentDayQuery,
}

impl View for ProductPricesCurrentDayQueryBuilder {
    type V = QueryModel;

    closed spec fn view(&self) -> QueryModel {
        self.query@
    }
}

impl Default for ProductPricesCurrentDayQueryBuilder {
    fn default() -> (r: Self)
        ensures
            r@ == empty_query(),
    {
        ProductPricesCurrentDayQueryBuilder { query: ProductPricesCurrentDayQuery::default() }
    }
}

/// A field of a current-day price query.
pub enum QueryField {
    BranchIds,
    OrderBy,
    SortOrder,
    OnlyInMyBranches,
    CategoryId,
    GroupByVendor,
    Page,
    Size,
}

/// One call of a query builder setter, with its argument.
pub enum QuerySetting {
    BranchIds(Seq<Seq<char>>),
    AddBranchId(Seq<char>),
    OrderBy(Seq<char>),
    SortOrder(SortOrder),
    OnlyInMyBranches(bool),
    CategoryId(u64),
    GroupByVendor(bool),
    Page(u64),
    Size(u64),
}

/// The field a setter call writes.
pub open spec fn setting_field(s: QuerySetting) -> QueryField {
    match s {
        QuerySetting::BranchIds(_) => QueryField::BranchIds,
        QuerySetting::AddBranchId(_) => QueryField::BranchIds,
        QuerySetting::OrderBy(_) => QueryField::OrderBy,
        QuerySetting::SortOrder(_) => QueryField::SortOrder,
        QuerySetting::OnlyInMyBranches(_) => QueryField::OnlyInMyBranches,
        QuerySetting::CategoryId(_) => QueryField::CategoryId,
        QuerySetting::GroupByVendor(_) => QueryField::GroupByVendor,
        QuerySetting::Page(_) => QueryField::Page,
        QuerySetting::Size(_) => QueryField::Size,
    }
}

/// The query after one setter call: `add_branch_id` appends to the branch
/// ids, every other setter replaces its own field.
pub open spec fn apply_setting(q: QueryModel, s: QuerySetting) -> QueryModel {
    match s {
        QuerySetting::BranchIds(ids) => QueryModel { branch_ids: ids, ..q },
        QuerySetting::AddBranchId(id) => QueryModel { branch_ids: q.branch_ids.push(id), ..q },
        QuerySetting::OrderBy(v) => QueryModel { order_by: Some(v), ..q },
        QuerySetting::SortOrder(v) => QueryModel { sort_order: Some(v), ..q },
        QuerySetting::OnlyInMyBranches(v) => QueryModel { only_in_my_branches: Some(v), ..q },
        QuerySetting::CategoryId(v) => QueryModel { category_id: Some(v), ..q },
        QuerySetting::GroupByVendor(v) => QueryModel { group_by_vendor: Some(v), ..q },
        QuerySetting::Page(v) => QueryModel { page: Some(v), ..q },
        QuerySetting::Size(v) => QueryModel { size: Some(v), ..q },
    }
}

/// The query after the setter calls `ss`, made in order.
pub open spec fn apply_settings(q: QueryModel, ss: Seq<QuerySetting>) -> QueryModel
    decreases ss.len(),
{
    if ss.len() == 0 {
        q
    } else {
        apply_setting(apply_settings(q, ss.drop_last()), ss.last())
    }
}

/// Whether `s` replaces the whole of field `f`: every setter of `f` but
/// `add_branch_id` does.
pub open spec fn replaces(s: QuerySetting, f: QueryField) -> bool {
    setting_field(s) == f && !(s is AddBranchId)
}

/// The index of the last call in `ss` that replaces field `f`, or -1.
pub open spec fn last_replacing(ss: Seq<QuerySetting>, f: QueryField) -> int
    decreases ss.len(),
{
    if ss.len() == 0 {
        -1
    } else if replaces(ss.last(), f) {
        ss.len() - 1
    } else {
        last_replacing(ss.drop_last(), f)
    }
}

/// The branch ids that the `add_branch_id` calls in `ss` append, in order.
pub open spec fn added_branch_ids(ss: Seq<QuerySetting>) -> Seq<Seq<char>>
    decreases ss.len(),
{
    if ss.len() == 0 {
        seq![]
    } else {
        match ss.last() {
            QuerySetting::AddBranchId(id) => added_branch_ids(ss.drop_last()).push(id),
            _ => added_branch_ids(ss.drop_last()),
        }
    }
}

/// The query a fresh builder holds after the calls `ss`: each field holds the
/// value of the last call that set it, or nothing when none did; the branch
/// ids are the last list given (none if no list was given) followed by every
/// id added after it, in order.
pub open spec fn settled_query(ss: Seq<QuerySetting>) -> QueryModel {
    let b = last_replacing(ss, QueryField::BranchIds);
    let o = last_replacing(ss, QueryField::OrderBy);
    let so = last_replacing(ss, QueryField::SortOrder);
    let m = last_replacing(ss, QueryField::OnlyInMyBranches);
    let c = last_replacing(ss, QueryField::CategoryId);
    let g = last_replacing(ss, QueryField::GroupByVendor);
    let p = last_replacing(ss, QueryField::Page);
    let z = last_replacing(ss, QueryField::Size);
    QueryModel {
        branch_ids: (if b < 0 {
            seq![]
        } else {
            ss[b]->BranchIds_0
        }) + added_branch_ids(ss.skip(b + 1)),
        order_by: if o < 0 {
            None
        } else {
            Some(ss[o]->OrderBy_0)
        },
        sort_order: if so < 0 {
            None
        } else {
            Some(ss[so]->SortOrder_0)
        },
        only_in_my_branches: if m < 0 {
            None
        } else {
            Some(ss[m]->OnlyInMyBranches_0)
        },
        category_id: if c < 0 {
            None
        } else {
            Some(ss[c]->CategoryId_0)
        },
        group_by_vendor: if g < 0 {
            None
        } else {
            Some(ss[g]->GroupByVendor_0)
        },
        page: if p < 0 {
            None
        } else {
            Some(ss[p]->Page_0)
        },
        size: if z < 0 {
            None
        } else {
            Some(ss[z]->Size_0)
        },
    }
}

proof fn lemma_last_replacing_bounds(ss: Seq<QuerySetting>, f: QueryField)
    ensures
        -1 <= last_replacing(ss, f) < ss.len(),
        last_replacing(ss, f) >= 0 ==> replaces(ss[last_replacing(ss, f)], f),
    decreases ss.len(),
{
    if ss.len() > 0 && !replaces(ss.last(), f) {
        lemma_last_replacing_bounds(ss.drop_last(), f);
    }
}

/// Law: a builder fresh from `builder()` that the setter calls `ss` are made
/// on, in order, holds the settled query of `ss`: each field the value of the
/// last call that set it, or nothing; the branch ids the last list given
/// followed by the ids added after it.
pub proof fn lemma_last_setting_wins(ss: Seq<QuerySetting>)
    ensures
        apply_settings(empty_query(), ss) == settled_query(ss),
    decreases ss.len(),
{
    if ss.len() == 0 {
        assert(ss.skip(0) =~= ss);
        assert(settled_query(ss).branch_ids =~= seq![]);
    } else {
        let p = ss.drop_last();
        let s = ss.last();
        lemma_last_setting_wins(p);
        lemma_last_replacing_bounds(p, QueryField::BranchIds);
        lemma_last_replacing_bounds(p, QueryField::OrderBy);
        lemma_last_replacing_bounds(p, QueryField::SortOrder);
        lemma_last_replacing_bounds(p, QueryField::OnlyInMyBranches);
        lemma_last_replacing_bounds(p, QueryField::CategoryId);
        lemma_last_replacing_bounds(p, QueryField::GroupByVendor);
        lemma_last_replacing_bounds(p, QueryField::Page);
        lemma_last_replacing_bounds(p, QueryField::Size);
        assert forall|i: int| 0 <= i < p.len() implies ss[i] == p[i] by {}
        let bp = last_replacing(p, QueryField::BranchIds);
        let before = settled_query(p);
        let after = apply_setting(before, s);
        let target = settled_query(ss);
        if replaces(s, QueryField::BranchIds) {
            assert(ss.skip(ss.len() as int) =~= Seq::<QuerySetting>::empty());
            assert(target.branch_ids =~= s->BranchIds_0);
        } else {
            assert(ss.skip(bp + 1).drop_last() =~= p.skip(bp + 1));
            assert(ss.skip(bp + 1).last() == s);
            if s is AddBranchId {
                assert(target.branch_ids =~= before.branch_ids.push(s->AddBranchId_0));
            } else {
                assert(target.branch_ids =~= before.branch_ids);
            }
        }
        assert(after.branch_ids == target.branch_ids);
        assert(after == target);
    }
}

/// Law: setter calls on different fields give the same query in either order.
pub proof fn lemma_settings_on_different_fields_commute(
    q: QueryModel,
    first: QuerySetting,
    second: QuerySetting,
)
    requires
        setting_field(first) != setting_field(second),
    ensures
        apply_setting(apply_setting(q, first), second) == apply_setting(
            apply_setting(q, second),
            first,
        ),
{
}

impl ProductPricesCurrentDayQueryBuilder {
    pub fn new() -> (r: Self)
        ensures
            r@ == empty_query(),
    {
        Self::default()
    }

    /// Replaces the branch ids with `branch_ids`, in order.
    pub fn branch_ids(self, branch_ids: &[&str]) -> (r: Self)
        ensures
            r@ == apply_setting(self@, QuerySetting::BranchIds(branch_ids@.map_values(|s: &str| s@))),
    {
        let mut ids: Vec<String> = Vec::new();
        let mut i: usize = 0;
        while i < branch_ids.len()
            invariant
                i <= branch_ids@.len(),
                string_views(ids@) =~= branch_ids@.take(i as int).map_values(|s: &str| s@),
            decreases branch_ids@.len() - i,
        {
            let ghost before = ids@;
            ids.push(String::from_str(branch_ids[i]));
            assert(branch_ids@.take(i + 1) =~= branch_ids@.take(i as int).push(branch_ids@[i as int]));
            assert(string_views(ids@) =~= string_views(before).push(branch_ids@[i as int]@));
            i = i + 1;
        }
        assert(branch_ids@.take(branch_ids@.len() as int) =~= branch_ids@);
        let mut b = self;
        b.query.branch_ids = ids;
        b
    }

    /// Appends one branch id.
    pub fn add_branch_id(self, branch_id: &str) -> (r: Self)
        ensures
            r@ == apply_setting(self@, QuerySetting::AddBranchId(branch_id@)),
    {
        let mut b = self;
        let ghost before = b.query.branch_ids@;
        b.query.branch_ids.push(String::from_str(branch_id));
        assert(string_views(b.query.branch_ids@) =~= string_views(before).push(branch_id@));
        b
    }

    pub fn order_by(self, order_by: &str) -> (r: Self)
        ensures
            r@ == apply_setting(self@, QuerySetting::OrderBy(order_by@)),
    {
        let mut b = self;
        b.query.order_by = Some(String::from_str(order_by));
        b
    }

    pub fn sort_order(self, sort_order: SortOrder) -> (r: Self)
        ensures
            r@ == apply_setting(self@, QuerySetting::SortOrder(sort_order)),
    {
        let mut b = self;
        b.query.sort_order = Some(sort_order);
        b
    }

    pub fn only_in_my_branches(self, only_in_my_branches: bool) -> (r: Self)
        ensures
            r@ == apply_setting(self@, QuerySetting::OnlyInMyBranches(only_in_my_branches)),
    {
        let mut b = self;
        b.query.only_in_my_branches = Some(only_in_my_branches);
        b
    }

    pub fn category_id(self, category_id: u64) -> (r: Self)
        ensures
            r@ == apply_setting(self@, QuerySetting::CategoryId(category_id)),
    {
        let mut b = self;
        b.query.category_id = Some(category_id);
        b
    }

    pub fn group_by_vendor(self, group_by_vendor: bool) -> (r: Self)
        ensures
            r@ == apply_setting(self@, QuerySetting::GroupByVendor(group_by_vendor)),
    {
        let mut b = self;
        b.query.group_by_vendor = Some(group_by_vendor);
        b
    }

    pub fn page(self, page: u64) -> (r: Self)
        ensures
            r@ == apply_setting(self@, QuerySetting::Page(page)),
    {
        let mut b = self;
        b.query.page = Some(page);
        b
    }

    pub fn size(self, size: u64) -> (r: Self)
        ensures
            r@ == apply_setting(self@, QuerySetting::Size(size)),
    {
        let mut b = self;
        b.query.size = Some(size);
        b
    }

    /// The query built so far.
    pub fn build(self) -> (r: ProductPricesCurrentDayQuery)
        ensures
            r@ == self@,
    {
        self.query
    }
}

/// A company named on a product (manufacturer or distributor).
#[derive(Debug, Clone, PartialEq, Eq)]
pub struct ProductCompany {
    pub name: String,
    pub country_codes: Vec<String>,
}

/// The countries a product was bred, slaughtered and produced in.
#[derive(Debug, Clone, PartialEq, Eq)]
pub struct CountrySpecifications {
    pub breeding: Vec<String>,
    pub slaughter: Vec<String>,
    pub origin: Vec<String>,
}

/// Failures of the current-day product price source.
#[derive(Debug, Clone, PartialEq, Eq)]
pub enum ProductPriceError {
    NotFound,
    InvalidQuery(String),
    InvalidResponse(String),
    Unavailable(String),
}

/// The message a price error is displayed with.
pub open spec fn product_price_error_text(e: ProductPriceError) -> Seq<char> {
    match e {
        ProductPriceError::NotFound => "Product prices not found"@,
        ProductPriceError::InvalidQuery(s) => "Product prices query is invalid: "@ + s@,
        ProductPriceError::InvalidResponse(s) => "Product prices response is invalid: "@ + s@,
        ProductPriceError::Unavailable(s) => "Product prices source is unavailable: "@ + s@,
    }
}

impl ProductPriceError {
    /// The message this error is displayed with.
    pub fn to_string(&self) -> (r: String)
        ensures
            r@ == product_price_error_text(*self),
    {
        match self {
            ProductPriceError::NotFound => String::from_str("Product prices not found"),
            ProductPriceError::InvalidQuery(s) => {
                let mut r = String::from_str("Product prices query is invalid: ");
                r.append(s.as_str());
                r
            },
            ProductPriceError::InvalidResponse(s) => {
                let mut r = String::from_str("Product prices response is invalid: ");
                r.append(s.as_str());
                r
            },
            ProductPriceError::Unavailable(s) => {
                let mut r = String::from_str("Product prices source is unavailable: ");
                r.append(s.as_str());
                r
            },
        }
    }
}

/// The use case of reading current-day prices from a price source.
pub struct GetCurrentDayProductPricesUseCase<TProductPriceSource> {
    product_price_source: TProductPriceSource,
}

impl<TProductPriceSource> GetCurrentDayProductPricesUseCase<TProductPriceSource> {
    pub fn new(product_price_source: TProductPriceSource) -> (r: Self)
        ensures
            r.source() == product_price_source,
    {
        Self { product_price_source }
    }

    pub closed spec fn source(&self) -> TProductPriceSource {
        self.product_price_source
    }

    /// The price source the use case reads from.
    pub fn product_price_source(&self) -> (r: &TProductPriceSource)
        ensures
            *r == self.source(),
    {
        &self.product_price_source
    }
}

} // verus!
