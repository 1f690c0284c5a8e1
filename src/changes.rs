//! The `/changes` resource: recorded modifications and the request that lists them.
use vstd::prelude::*;
use crate::query::{decimal, decimal_string, entries, entry, generate_query_string, query_of, ParamView};

verus! {

/// The kind of platform object that a change is about.
#[derive(Debug, Clone, Copy, PartialEq, Eq, Structural)]
pub enum ChangeType {
    Feed,
    MessageTemplate,
    Layout,
    DefaultLayout,
    NotificationTemplate,
    NotificationGroup,
}

/// One recorded modification, pending or promoted across environments.
#[derive(Debug, Clone, PartialEq)]
pub struct Change {
    pub _id: String,
    pub _creator_id: String,
    pub _environment_id: String,
    pub _organization_id: String,
    pub _entity_id: String,
    pub _parent_id: String,
    pub enabled: bool,
    pub created_at: String,
    pub change_type: ChangeType,
}

/// One page of changes, with the paging figures the server reported.
#[derive(Debug, Clone, PartialEq)]
pub struct ChangesResponse {
    pub page: u32,
    pub total_count: u32,
    pub page_size: u32,
    pub data: Vec<Change>,
}

/// The `/changes` resource, over a client that carries out the requests.
pub struct Changes<C> {
    client: C,
}

/// The decimal form of an optional number.
pub open spec fn opt_decimal(n: Option<u32>) -> Option<Seq<char>> {
    match n {
        Some(v) => Some(decimal(v as nat)),
        None => None,
    }
}

/// The text of a flag: `true` or `false`.
pub open spec fn bool_text(b: bool) -> Seq<char> {
    if b {
        "true"@
    } else {
        "false"@
    }
}

/// The parameters of a listing: `page` and `limit` when given, `promoted` always.
pub open spec fn list_params(page: Option<u32>, limit: Option<u32>, promoted: bool) -> Seq<ParamView> {
    seq![
        ("page"@, opt_decimal(page)),
        ("limit"@, opt_decimal(limit)),
        ("promoted"@, Some(bool_text(promoted))),
    ]
}

/// The path that a listing requests.
pub open spec fn list_path_of(page: Option<u32>, limit: Option<u32>, promoted: bool) -> Seq<char> {
    "/changes/?"@ + query_of(list_params(page, limit, promoted))
}

/// The entry `key=n` when a number is given, else nothing.
pub open spec fn opt_entry(key: Seq<char>, n: Option<u32>) -> Seq<Seq<char>> {
    match n {
        Some(v) => seq![entry(key, decimal(v as nat))],
        None => seq![],
    }
}

fn opt_decimal_string(n: Option<u32>) -> (r: Option<String>)
    ensures
        r.deep_view() == opt_decimal(n),
{
    match n {
        Some(v) => Some(decimal_string(v)),
        None => None,
    }
}

/// The query string of a listing.
pub fn list_query(page: Option<u32>, limit: Option<u32>, promoted: bool) -> (r: String)
    ensures
        r@ == query_of(list_params(page, limit, promoted)),
{
    let flag: &str = if promoted {
        "true"
    } else {
        "false"
    };
    let mut params: Vec<(&str, Option<String>)> = Vec::new();
    params.push(("page", opt_decimal_string(page)));
    params.push(("limit", opt_decimal_string(limit)));
    params.push(("promoted", Some(String::from_str(flag))));
    assert(params.deep_view() =~= list_params(page, limit, promoted));
    generate_query_string(&params)
}

impl<C> Changes<C> {
    /// The client held.
    pub closed spec fn held(&self) -> C {
        self.client
    }

    pub fn new(client: C) -> (r: Self)
        ensures
            r.held() == client,
    {
        Self { client }
    }

    /// The client that carries out the requests.
    pub fn client(&self) -> (r: &C)
        ensures
            *r == self.held(),
    {
        &self.client
    }

    /// The path to request for a listing: `/changes/?` and its query string.
    pub fn list_path(&self, page: Option<u32>, limit: Option<u32>, promoted: bool) -> (r: String)
        ensures
            r@ == list_path_of(page, limit, promoted),
    {
        let mut path = String::from_str("/changes/?");
        let query = list_query(page, limit, promoted);
        path.append(query.as_str());
        path
    }
}

/// A listing's query holds a `page` entry exactly when a page is given, a
/// `limit` entry exactly when a limit is given, one `promoted` entry always,
/// and nothing else.
pub proof fn lemma_list_query_entries(page: Option<u32>, limit: Option<u32>, promoted: bool)
    ensures
        entries(list_params(page, limit, promoted)) == opt_entry("page"@, page) + opt_entry(
            "limit"@,
            limit,
        ) + seq![entry("promoted"@, bool_text(promoted))],
{
    let ps = list_params(page, limit, promoted);
    reveal_with_fuel(entries, 4);
    assert(ps.drop_last() =~= seq![("page"@, opt_decimal(page)), ("limit"@, opt_decimal(limit))]);
    assert(ps.drop_last().drop_last() =~= seq![("page"@, opt_decimal(page))]);
    assert(ps.drop_last().drop_last().drop_last() =~= Seq::<ParamView>::empty());
    assert(entries(ps.drop_last().drop_last()) =~= opt_entry("page"@, page));
    assert(entries(ps.drop_last()) =~= opt_entry("page"@, page) + opt_entry("limit"@, limit));
    assert(entries(ps) =~= opt_entry("page"@, page) + opt_entry("limit"@, limit) + seq![
        entry("promoted"@, bool_text(promoted)),
    ]);
}

/// With neither page nor limit, a listing's query is the `promoted` entry alone:
/// it is never empty.
pub proof fn lemma_list_query_without_paging(promoted: bool)
    ensures
        query_of(list_params(None, None, promoted)) == entry("promoted"@, bool_text(promoted)),
        query_of(list_params(None, None, promoted)).len() > 0,
{
    lemma_list_query_entries(None, None, promoted);
    let es = entries(list_params(None, None, promoted));
    assert(es =~= seq![entry("promoted"@, bool_text(promoted))]);
}

} // verus!
