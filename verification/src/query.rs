//! Client handle, query builder, and request-parameter construction.
//!
//! A [`Base`] binds credentials and a table name. Its [`Base::query`]
//! method starts a fluent [`QueryBuilder`] that accumulates an immutable
//! query description: an optional saved view, an optional filter formula,
//! and an ordered list of sort keys. The builder also renders, for a given
//! cursor, the exact ordered query-parameter list the listing endpoint
//! expects, with sort keys indexed `sort[0]`, `sort[1]`, ... in insertion
//! order.

use vstd::prelude::*;

use crate::numeral::dec_str;
use crate::numeral::u64_to_dec;
use crate::page::Record;

verus! {

/// Sort order for a single sort key of a query.
pub enum SortDirection {
    Descending,
    Ascending,
}

impl SortDirection {
    /// The token this direction serializes to in a request query string.
    pub open spec fn token(self) -> Seq<char> {
        match self {
            SortDirection::Descending => "desc"@,
            SortDirection::Ascending => "asc"@,
        }
    }

    /// Render the direction as the query-string token `"asc"` or `"desc"`.
    pub fn to_string(&self) -> (r: String)
        ensures
            r@ == self.token(),
    {
        match self {
            SortDirection::Descending => String::from_str("desc"),
            SortDirection::Ascending => String::from_str("asc"),
        }
    }
}

/// The immutable connection context a [`Base`] carries: credentials and
/// the identity of the table all requests address.
pub ghost struct ClientModel {
    pub api_key: Seq<char>,
    pub app_key: Seq<char>,
    pub table: Seq<char>,
}

/// The query description a builder has accumulated: optional view,
/// optional filter formula, and sort keys in insertion order.
pub ghost struct QueryModel {
    pub view: Option<Seq<char>>,
    pub formula: Option<Seq<char>>,
    pub sort: Seq<(Seq<char>, SortDirection)>,
}

impl QueryModel {
    /// The description a fresh builder starts from: nothing set.
    pub open spec fn empty() -> QueryModel {
        QueryModel { view: None, formula: None, sort: Seq::empty() }
    }
}

/// A handle on one remote table: base-id and table name select the
/// endpoint, the key authorizes requests. Immutable once constructed.
pub struct Base<T: Record> {
    table: String,
    api_key: String,
    app_key: String,
    phantom: core::marker::PhantomData<T>,
}

/// Construct a table handle from an API key, a base id, and a table name.
pub fn new<T: Record>(api_key: &str, app_key: &str, table: &str) -> (b: Base<T>)
    ensures
        b.ctx() == (ClientModel { api_key: api_key@, app_key: app_key@, table: table@ }),
{
    Base {
        api_key: api_key.to_owned(),
        app_key: app_key.to_owned(),
        table: table.to_owned(),
        phantom: core::marker::PhantomData,
    }
}

/// The URL of the table's listing/creation endpoint: `{base}/{app}/{table}`.
pub open spec fn table_url_model(c: ClientModel) -> Seq<char> {
    "https://api.airtable.com/v0"@ + "/"@ + c.app_key + "/"@ + c.table
}

/// The URL addressing one record of the table: `{base}/{app}/{table}/{id}`.
pub open spec fn record_url_model(c: ClientModel, id: Seq<char>) -> Seq<char> {
    table_url_model(c) + "/"@ + id
}

/// The value of the `Authorization` header: the API key as a bearer token.
pub open spec fn auth_header_model(c: ClientModel) -> Seq<char> {
    "Bearer "@ + c.api_key
}

impl<T: Record> Base<T> {
    /// The connection context this handle was constructed with.
    pub closed spec fn ctx(&self) -> ClientModel {
        ClientModel { api_key: self.api_key@, app_key: self.app_key@, table: self.table@ }
    }

    /// The URL of the table endpoint (listing and creation).
    pub fn table_url(&self) -> (r: String)
        ensures
            r@ == table_url_model(self.ctx()),
    {
        let mut u = String::from_str("https://api.airtable.com/v0");
        u.append("/");
        u.append(self.app_key.as_str());
        u.append("/");
        u.append(self.table.as_str());
        u
    }

    /// The URL of the record with identifier `id` (updates).
    pub fn record_url(&self, id: &str) -> (r: String)
        ensures
            r@ == record_url_model(self.ctx(), id@),
    {
        let mut u = self.table_url();
        u.append("/");
        u.append(id);
        u
    }

    /// The `Authorization` header value for this handle's API key.
    pub fn auth_header(&self) -> (r: String)
        ensures
            r@ == auth_header_model(self.ctx()),
    {
        let mut h = String::from_str("Bearer ");
        h.append(self.api_key.as_str());
        h
    }

    /// Start building a query against this table: nothing is set and no
    /// request is made until the finished paginator is first pulled.
    pub fn query(&self) -> (q: QueryBuilder<T>)
        ensures
            q.ctx() == self.ctx(),
            q.model() == QueryModel::empty(),
    {
        let q = QueryBuilder {
            base: Base {
                table: self.table.clone(),
                api_key: self.api_key.clone(),
                app_key: self.app_key.clone(),
                phantom: core::marker::PhantomData,
            },
            view: None,
            formula: None,
            sort: Vec::new(),
        };
        proof {
            assert(q.model().sort =~= QueryModel::empty().sort);
        }
        q
    }
}

/// Whether an HTTP status code reports success.
pub fn is_success(status: u16) -> (r: bool)
    ensures
        r == (200 <= status < 300),
{
    200 <= status && status < 300
}

/// The query parameter carrying the resume cursor, present on every
/// listing request (the empty cursor asks for the first page).
pub open spec fn offset_param(cursor: Seq<char>) -> Seq<(Seq<char>, Seq<char>)> {
    seq![("offset"@, cursor)]
}

/// An optional scalar query parameter: nothing when the option is unset,
/// one `(key, value)` pair when it is set.
pub open spec fn opt_param(key: Seq<char>, value: Option<Seq<char>>) -> Seq<
    (Seq<char>, Seq<char>),
> {
    match value {
        None => Seq::empty(),
        Some(v) => seq![(key, v)],
    }
}

/// The parameter key naming the field of the sort entry at index `i`.
pub open spec fn sort_field_key(i: nat) -> Seq<char> {
    "sort["@ + dec_str(i) + "][field]"@
}

/// The parameter key naming the direction of the sort entry at index `i`.
pub open spec fn sort_direction_key(i: nat) -> Seq<char> {
    "sort["@ + dec_str(i) + "][direction]"@
}

/// The query parameters for a list of sort keys: for each entry, in list
/// order, its field under `sort[i][field]` and its direction token under
/// `sort[i][direction]`, with `i` counted from zero.
pub open spec fn sort_params(sort: Seq<(Seq<char>, SortDirection)>) -> Seq<
    (Seq<char>, Seq<char>),
>
    decreases sort.len(),
{
    if sort.len() == 0 {
        Seq::empty()
    } else {
        sort_params(sort.drop_last()) + seq![
            (sort_field_key((sort.len() - 1) as nat), sort.last().0),
            (sort_direction_key((sort.len() - 1) as nat), sort.last().1.token()),
        ]
    }
}

/// The full ordered parameter list of one listing request: the cursor,
/// then the view and the filter formula where set, then the sort keys.
pub open spec fn spec_params(cursor: Seq<char>, q: QueryModel) -> Seq<(Seq<char>, Seq<char>)> {
    offset_param(cursor) + opt_param("view"@, q.view) + opt_param("filterByFormula"@, q.formula)
        + sort_params(q.sort)
}

/// A parameter list renders two pairs per sort entry.
pub proof fn lemma_sort_params_len(sort: Seq<(Seq<char>, SortDirection)>)
    ensures
        sort_params(sort).len() == 2 * sort.len(),
    decreases sort.len(),
{
    if sort.len() > 0 {
        lemma_sort_params_len(sort.drop_last());
    }
}

/// Sort entries appear in the rendered parameter list in list order: the
/// entry at position `i` stands at positions `2 * i` and `2 * i + 1`,
/// keyed with the zero-based index `i`.
pub proof fn lemma_sort_params_index(sort: Seq<(Seq<char>, SortDirection)>, i: int)
    requires
        0 <= i < sort.len(),
    ensures
        sort_params(sort).len() == 2 * sort.len(),
        sort_params(sort)[2 * i] == (sort_field_key(i as nat), sort[i].0),
        sort_params(sort)[2 * i + 1] == (sort_direction_key(i as nat), sort[i].1.token()),
    decreases sort.len(),
{
    lemma_sort_params_len(sort);
    if i < sort.len() - 1 {
        lemma_sort_params_index(sort.drop_last(), i);
    }
}

/// In the full parameter list of a listing request the sort entries come
/// last, in call-insertion order: sort entry `i` stands right after the
/// scalar parameters as the adjacent pair keyed with the zero-based
/// index `i`.
pub proof fn lemma_spec_params_sort_order(cursor: Seq<char>, q: QueryModel, i: int)
    requires
        0 <= i < q.sort.len(),
    ensures
        ({
            let scalars = offset_param(cursor) + opt_param("view"@, q.view) + opt_param(
                "filterByFormula"@,
                q.formula,
            );
            let base = scalars.len() as int;
            spec_params(cursor, q).len() == base + 2 * q.sort.len() && spec_params(cursor, q)[base
                + 2 * i] == (sort_field_key(i as nat), q.sort[i].0) && spec_params(cursor, q)[base
                + 2 * i + 1] == (sort_direction_key(i as nat), q.sort[i].1.token())
        }),
{
    lemma_sort_params_index(q.sort, i);
}

/// The view of a rendered parameter list: each pair as character
/// sequences.
pub open spec fn params_view(ps: Seq<(String, String)>) -> Seq<(Seq<char>, Seq<char>)> {
    ps.map(|i: int, p: (String, String)| (p.0@, p.1@))
}

/// A fluent accumulator for a query description. Each call returns the
/// builder with one more option recorded; nothing is sent until the
/// builder is finalized into a paginator and that paginator is pulled.
pub struct QueryBuilder<T: Record> {
    pub(crate) base: Base<T>,
    pub(crate) view: Option<String>,
    pub(crate) formula: Option<String>,
    pub(crate) sort: Vec<(String, SortDirection)>,
}

impl<T: Record> QueryBuilder<T> {
    /// The connection context the finished paginator will fetch against.
    pub closed spec fn ctx(&self) -> ClientModel {
        self.base.ctx()
    }

    /// The query description accumulated so far.
    pub closed spec fn model(&self) -> QueryModel {
        QueryModel {
            view: match self.view {
                Some(ref v) => Some(v@),
                None => None,
            },
            formula: match self.formula {
                Some(ref f) => Some(f@),
                None => None,
            },
            sort: self.sort@.map(|i: int, p: (String, SortDirection)| (p.0@, p.1)),
        }
    }

    /// Restrict the query to a saved view. Repeated calls overwrite: only
    /// the last view name is kept.
    pub fn view(self, view: &str) -> (r: Self)
        ensures
            r.ctx() == self.ctx(),
            r.model() == (QueryModel { view: Some(view@), ..self.model() }),
    {
        QueryBuilder { view: Some(view.to_owned()), ..self }
    }

    /// Restrict the query by a filter formula. Repeated calls overwrite:
    /// only the last formula is kept.
    pub fn formula(self, formula: &str) -> (r: Self)
        ensures
            r.ctx() == self.ctx(),
            r.model() == (QueryModel { formula: Some(formula@), ..self.model() }),
    {
        QueryBuilder { formula: Some(formula.to_owned()), ..self }
    }

    /// Append one sort key. Repeated calls accumulate, and the keys keep
    /// call order: the first call gives the primary key.
    pub fn sort(self, field: &str, direction: SortDirection) -> (r: Self)
        ensures
            r.ctx() == self.ctx(),
            r.model() == (QueryModel {
                sort: self.model().sort.push((field@, direction)),
                ..self.model()
            }),
    {
        let mut sort = self.sort;
        sort.push((field.to_owned(), direction));
        let r = QueryBuilder {
            base: self.base,
            view: self.view,
            formula: self.formula,
            sort,
        };
        proof {
            assert(r.model().sort =~= self.model().sort.push((field@, direction)));
        }
        r
    }

    /// The URL of the listing endpoint the finished paginator will fetch
    /// from.
    pub fn table_url(&self) -> (r: String)
        ensures
            r@ == table_url_model(self.ctx()),
    {
        self.base.table_url()
    }

    /// The `Authorization` header value the finished paginator will send.
    pub fn auth_header(&self) -> (r: String)
        ensures
            r@ == auth_header_model(self.ctx()),
    {
        self.base.auth_header()
    }

    /// Render the full ordered query-parameter list of one listing
    /// request for this query description and the given resume cursor.
    pub fn request_params(&self, cursor: &String) -> (ps: Vec<(String, String)>)
        ensures
            params_view(ps@) == spec_params(cursor@, self.model()),
    {
        let ghost scalars = offset_param(cursor@) + opt_param("view"@, self.model().view)
            + opt_param("filterByFormula"@, self.model().formula);
        let mut ps: Vec<(String, String)> = Vec::new();
        ps.push((String::from_str("offset"), cursor.clone()));
        match &self.view {
            Some(v) => ps.push((String::from_str("view"), v.clone())),
            None => (),
        }
        match &self.formula {
            Some(f) => ps.push((String::from_str("filterByFormula"), f.clone())),
            None => (),
        }
        proof {
            assert(params_view(ps@) =~= scalars);
        }
        let ghost msort = self.model().sort;
        let mut i: usize = 0;
        while i < self.sort.len()
            invariant
                i <= self.sort.len(),
                msort == self.model().sort,
                msort.len() == self.sort.len(),
                params_view(ps@) == scalars + sort_params(msort.take(i as int)),
            decreases self.sort.len() - i,
        {
            let idx = u64_to_dec(i as u64);
            let mut k_field = String::from_str("sort[");
            k_field.append(idx.as_str());
            k_field.append("][field]");
            let mut k_dir = String::from_str("sort[");
            k_dir.append(idx.as_str());
            k_dir.append("][direction]");
            let field_val = self.sort[i].0.clone();
            let dir_val = self.sort[i].1.to_string();
            let ghost ps_before = ps@;
            ps.push((k_field, field_val));
            ps.push((k_dir, dir_val));
            proof {
                assert(i as u64 as nat == i as nat);
                assert(k_field@ == sort_field_key(i as nat));
                assert(k_dir@ == sort_direction_key(i as nat));
                assert(msort[i as int] == (self.sort@[i as int].0@, self.sort@[i as int].1));
                assert(field_val@ == msort[i as int].0);
                assert(dir_val@ == msort[i as int].1.token());
                assert(msort.take(i + 1).drop_last() =~= msort.take(i as int));
                assert(msort.take(i + 1).last() == msort[i as int]);
                assert(sort_params(msort.take(i + 1)) == sort_params(msort.take(i as int))
                    + seq![
                    (sort_field_key(i as nat), msort[i as int].0),
                    (sort_direction_key(i as nat), msort[i as int].1.token()),
                ]);
                assert(ps@ =~= ps_before.push((k_field, field_val)).push((k_dir, dir_val)));
                assert(params_view(ps_before) == scalars + sort_params(msort.take(i as int)));
                assert(params_view(ps@) =~~= params_view(ps_before) + seq![
                    (k_field@, field_val@),
                    (k_dir@, dir_val@),
                ]);
                assert(scalars + sort_params(msort.take(i + 1)) =~~= (scalars + sort_params(
                    msort.take(i as int),
                )) + seq![(k_field@, field_val@), (k_dir@, dir_val@)]);
                assert(params_view(ps@) =~~= scalars + sort_params(msort.take(i + 1)));
            }
            i = i + 1;
        }
        proof {
            assert(msort.take(msort.len() as int) =~= msort);
            assert(params_view(ps@) =~= spec_params(cursor@, self.model()));
        }
        ps
    }
}

} // verus!
