//! A very small declarative query builder, and the queries that the rest
//! of the library builds with it.
//!
//! The builder joins fragments; it neither checks nor escapes them. Callers
//! pass trusted fragment text and bind every untrusted value through a
//! positional parameter.

use crate::error::Error;
use crate::import::FileInfo;
use crate::text::{decimal, joined, push_decimal, push_joined, str_views};
use vstd::prelude::*;
use vstd::string::*;

verus! {

/// One base query with optional predicates, orderings and a row limit.
pub struct QueryStringBuilder<'q> {
    base_query: &'q str,
    where_clauses: Vec<&'q str>,
    order_by: Vec<&'q str>,
    limit: Option<usize>,
}

/// Mathematical model of a `QueryStringBuilder`.
pub struct QueryView {
    pub base_query: Seq<char>,
    /// Predicates in the order they were added.
    pub where_clauses: Seq<Seq<char>>,
    /// Orderings in the order they were added; the first ranks highest.
    pub order_by: Seq<Seq<char>>,
    pub limit: Option<usize>,
}

/// The predicate part of a query: nothing without predicates, else
/// ` where ` and the predicates joined by ` and `.
pub open spec fn where_text(clauses: Seq<Seq<char>>) -> Seq<char> {
    if clauses.len() == 0 {
        Seq::empty()
    } else {
        " where "@ + joined(clauses, " and "@)
    }
}

/// The ordering part of a query: nothing without orderings, else
/// ` order by ` and the orderings joined by `, `.
pub open spec fn order_text(clauses: Seq<Seq<char>>) -> Seq<char> {
    if clauses.len() == 0 {
        Seq::empty()
    } else {
        " order by "@ + joined(clauses, ", "@)
    }
}

/// The limit part of a query: nothing without a limit, else ` limit ` and
/// the decimal numeral of the limit.
pub open spec fn limit_text(limit: Option<usize>) -> Seq<char> {
    match limit {
        None => Seq::empty(),
        Some(value) => " limit "@ + decimal(value as nat),
    }
}

/// The final query string: base, predicates, ordering, limit.
pub open spec fn rendered(query: QueryView) -> Seq<char> {
    query.base_query + where_text(query.where_clauses) + order_text(query.order_by) + limit_text(
        query.limit,
    )
}

impl<'q> View for QueryStringBuilder<'q> {
    type V = QueryView;

    closed spec fn view(&self) -> QueryView {
        QueryView {
            base_query: self.base_query@,
            where_clauses: str_views(self.where_clauses@),
            order_by: str_views(self.order_by@),
            limit: self.limit,
        }
    }
}

impl<'q> QueryStringBuilder<'q> {
    /// A builder over `base_query` with no predicate, ordering or limit.
    pub fn new(base_query: &'q str) -> (r: Self)
        ensures
            r@ == (QueryView {
                base_query: base_query@,
                where_clauses: Seq::empty(),
                order_by: Seq::empty(),
                limit: None,
            }),
    {
        let r = QueryStringBuilder {
            base_query,
            where_clauses: Vec::new(),
            order_by: Vec::new(),
            limit: None,
        };
        assert(str_views(r.where_clauses@) =~= Seq::empty());
        assert(str_views(r.order_by@) =~= Seq::empty());
        r
    }

    /// Adds a predicate; all predicates have to hold.
    pub fn and_where(&mut self, clause: &'q str) -> (r: &mut Self)
        ensures
            *final(r) == *final(self),
            r@ == (QueryView {
                where_clauses: old(self)@.where_clauses.push(clause@),
                ..old(self)@
            }),
    {
        self.where_clauses.push(clause);
        assert(str_views(self.where_clauses@) =~= str_views(old(self).where_clauses@).push(
            clause@,
        ));
        self
    }

    /// Adds an ordering, ranked below the ones added before.
    pub fn order_by(&mut self, clause: &'q str) -> (r: &mut Self)
        ensures
            *final(r) == *final(self),
            r@ == (QueryView { order_by: old(self)@.order_by.push(clause@), ..old(self)@ }),
    {
        self.order_by.push(clause);
        assert(str_views(self.order_by@) =~= str_views(old(self).order_by@).push(clause@));
        self
    }

    /// Sets the row limit, replacing an earlier one.
    pub fn limit(&mut self, value: usize) -> (r: &mut Self)
        ensures
            *final(r) == *final(self),
            r@ == (QueryView { limit: Some(value), ..old(self)@ }),
    {
        self.limit = Some(value);
        self
    }

    /// Renders the final query string.
    pub fn to_string(&self) -> (r: String)
        ensures
            r@ == rendered(self@),
    {
        let mut out = String::from_str(self.base_query);
        if self.where_clauses.len() > 0 {
            out.append(" where ");
            push_joined(&mut out, &self.where_clauses, " and ");
        }
        if self.order_by.len() > 0 {
            out.append(" order by ");
            push_joined(&mut out, &self.order_by, ", ");
        }
        if let Some(value) = self.limit {
            out.append(" limit ");
            push_decimal(&mut out, value as u64);
        }
        assert(out@ =~= rendered(self@));
        out
    }
}

/// The columns of a stored file in the order that reading a `FileInfo`
/// back expects.
pub open spec fn file_info_select() -> Seq<char> {
    "select id, device_manufacturer, device_product, device_serial_number, time_created, uuid from files"@
}

/// A builder over the query that reads stored files back, with the columns
/// in the order of the parts of a `FileInfo`.
pub fn new_file_info_query() -> (r: QueryStringBuilder<'static>)
    ensures
        r@ == (QueryView {
            base_query: file_info_select(),
            where_clauses: Seq::empty(),
            order_by: Seq::empty(),
            limit: None,
        }),
{
    QueryStringBuilder::new(
        "select id, device_manufacturer, device_product, device_serial_number, time_created, uuid from files",
    )
}

/// The query that finds a stored file by its fingerprint, bound as the one
/// parameter.
pub fn find_file_by_uuid_query() -> (r: QueryStringBuilder<'static>)
    ensures
        r@ == (QueryView {
            base_query: file_info_select(),
            where_clauses: seq!["uuid = ?"@],
            order_by: Seq::empty(),
            limit: None,
        }),
{
    let mut query = new_file_info_query();
    query.and_where("uuid = ?");
    assert(query@.where_clauses =~= seq!["uuid = ?"@]);
    query
}

/// Judges the outcome of looking a file up by its fingerprint: the file if
/// the query found a row, `FileDoesNotExistError` with the fingerprint if
/// it found none.
pub fn found_file(uuid: &str, row: Option<FileInfo>) -> (r: Result<FileInfo, Error>)
    ensures
        match row {
            Some(file_info) => r == Ok::<FileInfo, Error>(file_info),
            None => r matches Err(Error::FileDoesNotExistError(text)) && text@ == uuid@,
        },
{
    match row {
        Some(file_info) => Ok(file_info),
        None => Err(Error::FileDoesNotExistError(uuid.to_owned())),
    }
}

} // verus!
