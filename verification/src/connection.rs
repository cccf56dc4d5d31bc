//! Relay-style connection queries over a table ordered by an `i64` index: what a page
//! request asks the database for, and how the fetched rows become a page of edges.
//! Rendering the plan as SQL belongs to the database layer.
use vstd::prelude::*;

use crate::codec::{base64_std_decoding, base64_std_encoding};
use crate::pagination::{reverse_in_place, Cursor, PageInfo};
use crate::relay::{
    be_bytes, cursor_error_inner, cursor_error_message, cursor_index, cursor_reads_back,
    cursor_too_short, decode_cursor, encode_cursor, is_cursor_too_short, law_cursor_roundtrip,
    CursorError,
};

verus! {

/// Why connection arguments name no query.
#[derive(Debug)]
pub enum ConnectionError {
    /// `first` and `last` were both given.
    InvalidQuery,
    /// An explicit column list was empty.
    InvalidColumnOpts,
    Cursor(CursorError),
}

impl ConnectionError {
    /// The message the error is reported with; a cursor error shows its own message
    /// after `Connection spec cursor error: `.
    pub fn message(&self) -> (res: String)
        ensures
            match *self {
                ConnectionError::InvalidQuery => res@ == "Invalid connections query"@,
                ConnectionError::InvalidColumnOpts => res@ == "Custom column options cannot be empty"@,
                ConnectionError::Cursor(e) => exists|inner: String|
                    cursor_error_inner(e, inner) && res@ == "Connection spec cursor error: "@
                        + cursor_error_message(e, inner@),
            },
    {
        match self {
            ConnectionError::InvalidQuery => "Invalid connections query".to_owned(),
            ConnectionError::InvalidColumnOpts => "Custom column options cannot be empty".to_owned(),
            ConnectionError::Cursor(e) => {
                let m = e.message();
                let res = "Connection spec cursor error: ".to_owned().concat(m.as_str());
                proof {
                    let inner = choose|inner: String|
                        cursor_error_inner(*e, inner) && m@ == cursor_error_message(*e, inner@);
                    assert(cursor_error_inner(*e, inner));
                    assert(res@ =~= "Connection spec cursor error: "@ + cursor_error_message(*e, inner@));
                }
                res
            },
        }
    }
}

/// How many rows a connection query fetches (one more than asked for, to learn whether
/// another page exists) and in which direction; with neither count given, five rows
/// forward. The cursor to page from is `after` when paging forward and `before` when
/// paging backward.
pub fn connection_window(first: Option<i32>, last: Option<i32>) -> (res: Result<
    (usize, bool),
    ConnectionError,
>)
    requires
        first != Some(-1i32),
        last != Some(-1i32),
    ensures
        match (first, last) {
            (Some(c), None) => res matches Ok(w) && w.0 == (c as usize) + 1 && w.1,
            (None, Some(c)) => res matches Ok(w) && w.0 == (c as usize) + 1 && !w.1,
            (None, None) => res matches Ok(w) && w.0 == 5 && w.1,
            _ => res matches Err(ConnectionError::InvalidQuery),
        },
{
    match (first, last) {
        (Some(c), None) => {
            let n = #[verifier::truncate] (c as usize);
            assert(n + 1 == ((n + 1) as usize)) by (bit_vector)
                requires
                    c != -1i32,
                    n == #[verifier::truncate] (c as usize),
            ;
            Ok((n + 1, true))
        },
        (None, Some(c)) => {
            let n = #[verifier::truncate] (c as usize);
            assert(n + 1 == ((n + 1) as usize)) by (bit_vector)
                requires
                    c != -1i32,
                    n == #[verifier::truncate] (c as usize),
            ;
            Ok((n + 1, false))
        },
        (None, None) => Ok((5, true)),
        _ => Err(ConnectionError::InvalidQuery),
    }
}

/// Reading a fetched connection page: whether the extra row fetched beyond the page is
/// to be dropped, and whether a previous and a next page exist. `has_previous` is what
/// the query reported of rows before the cursor, when it paged from one.
pub fn connection_page_flags(
    row_count: usize,
    fetch_count: usize,
    ascending: bool,
    has_previous: Option<bool>,
) -> (res: (bool, bool, bool))
    ensures
        res.0 == (row_count >= fetch_count),
        res.1 == (if ascending {
            has_previous == Some(true)
        } else {
            row_count == fetch_count
        }),
        res.2 == (if ascending {
            row_count == fetch_count
        } else {
            has_previous == Some(true)
        }),
{
    let previous = match has_previous {
        Some(b) => b,
        None => false,
    };
    if ascending {
        (row_count >= fetch_count, previous, row_count == fetch_count)
    } else {
        (row_count >= fetch_count, row_count == fetch_count, previous)
    }
}

/// Which columns a connection query selects.
#[derive(Debug, Clone, Copy)]
pub enum ColumnOpts<'a> {
    /// Every column of the table.
    All,
    /// These columns; an empty list is refused.
    Custom(&'a [String]),
}

/// A comparison of the index column with a cursor's index.
#[derive(Clone, Copy, Debug, PartialEq, Eq, Structural)]
pub enum IndexFilter {
    LessThan(i64),
    GreaterThan(i64),
}

/// What a connection query asks the database for.
#[derive(Debug, Clone)]
pub struct QueryMeta<'a> {
    /// The selected columns; `None` selects every column.
    pub columns: Option<&'a [String]>,
    /// How many rows to fetch: one more than the page, to learn whether more follow.
    pub fetch_count: usize,
    /// Whether rows are ordered by ascending index.
    pub ascending: bool,
    /// Whether each row carries, as its last column, the number of rows before the
    /// cursor (the `previous_count` subquery).
    pub parse_previous: bool,
    /// With a cursor: the filter of the rows counted as before the page, and the filter
    /// of the page's rows.
    pub cursor_filters: Option<(IndexFilter, IndexFilter)>,
}

/// The cursor a page request pages from: `after` when paging forward by `first`,
/// `before` when paging backward by `last`, and none otherwise.
pub open spec fn connection_cursor(
    first: Option<i32>,
    after: Option<String>,
    last: Option<i32>,
    before: Option<String>,
) -> Option<Seq<char>> {
    match (first, last) {
        (Some(_), None) => match after {
            Some(c) => Some(c@),
            None => None,
        },
        (None, Some(_)) => match before {
            Some(c) => Some(c@),
            None => None,
        },
        _ => None,
    }
}

/// Around a cursor at `index`: the rows before the page and the rows of the page.
pub open spec fn filters_at(ascending: bool, index: i64) -> (IndexFilter, IndexFilter) {
    if ascending {
        (IndexFilter::LessThan(index), IndexFilter::GreaterThan(index))
    } else {
        (IndexFilter::GreaterThan(index), IndexFilter::LessThan(index))
    }
}

/// The fetch count and direction of a page request, when it names one.
pub open spec fn window_of(first: Option<i32>, last: Option<i32>) -> Option<(usize, bool)> {
    match (first, last) {
        (Some(c), None) => Some((((c as usize) + 1) as usize, true)),
        (None, Some(c)) => Some((((c as usize) + 1) as usize, false)),
        (None, None) => Some((5usize, true)),
        _ => None,
    }
}

/// What `build_raw` gives for a page request whose cursor, if any, decodes to at
/// least the eight index bytes: `InvalidQuery` for `first` and `last` together; the
/// cursor's error when it does not read back under the table's name; then
/// `InvalidColumnOpts` for an empty column list; otherwise the plan.
pub open spec fn planned<'a>(
    table: &str,
    first: Option<i32>,
    after: Option<String>,
    last: Option<i32>,
    before: Option<String>,
    column_opts: ColumnOpts<'a>,
    res: Result<QueryMeta<'a>, ConnectionError>,
) -> bool {
    let cursor = connection_cursor(first, after, last, before);
    let ident = vstd::utf8::encode_utf8(table@);
    let index = match cursor {
        Some(c) => cursor_index(vstd::utf8::encode_utf8(c), ident),
        None => None,
    };
    match window_of(first, last) {
        None => res matches Err(ConnectionError::InvalidQuery),
        Some(w) => if cursor is Some && index is None {
            let e = vstd::utf8::encode_utf8(cursor->0);
            if e.len() <= 8 {
                res matches Err(ConnectionError::Cursor(CursorError::InvalidLength))
            } else if base64_std_decoding(e) is None {
                res matches Err(ConnectionError::Cursor(CursorError::Base64Decode(_)))
            } else {
                res matches Err(ConnectionError::Cursor(CursorError::IdentityMismatch))
            }
        } else {
            match column_opts {
                ColumnOpts::Custom(cs) if cs@.len() == 0 => res matches Err(
                    ConnectionError::InvalidColumnOpts,
                ),
                _ => res matches Ok(meta) && {
                    &&& w == (meta.fetch_count, meta.ascending)
                    &&& meta.parse_previous == (cursor is Some)
                    &&& meta.cursor_filters == match index {
                        Some(i) => Some(filters_at(meta.ascending, i)),
                        None => None,
                    }
                    &&& meta.columns == match column_opts {
                        ColumnOpts::All => None,
                        ColumnOpts::Custom(cs) => Some(cs),
                    }
                },
            }
        },
    }
}

/// Whether the page request's cursor decodes to fewer bytes than an index takes (a
/// request `build_raw` does not take).
pub open spec fn cursor_cut_short(
    first: Option<i32>,
    after: Option<String>,
    last: Option<i32>,
    before: Option<String>,
) -> bool {
    connection_cursor(first, after, last, before) matches Some(c) && cursor_too_short(
        vstd::utf8::encode_utf8(c),
    )
}

/// Plans the query of a connection page over `table` from the relay arguments.
/// Errors, in the order they are checked: `first` and `last` together, a cursor that
/// does not read back under the table's name, an empty column list.
pub fn build_raw<'a>(
    table: &str,
    first: Option<i32>,
    after: Option<String>,
    last: Option<i32>,
    before: Option<String>,
    column_opts: ColumnOpts<'a>,
) -> (res: Result<QueryMeta<'a>, ConnectionError>)
    requires
        first != Some(-1i32),
        last != Some(-1i32),
        !cursor_cut_short(first, after, last, before),
    ensures
        planned(table, first, after, last, before, column_opts, res),
{
    let (fetch_count, ascending) = match connection_window(first, last) {
        Ok(w) => w,
        Err(e) => return Err(e),
    };
    let cursor = if first.is_some() {
        after
    } else if last.is_some() {
        before
    } else {
        None
    };
    let index = match cursor {
        Some(c) => {
            let bytes = vstd::slice::slice_to_vec(c.as_str().as_bytes());
            match decode_cursor(bytes, table.as_bytes()) {
                Ok(i) => Some(i),
                Err(e) => return Err(ConnectionError::Cursor(e)),
            }
        },
        None => None,
    };
    let columns = match column_opts {
        ColumnOpts::All => None,
        ColumnOpts::Custom(cs) => {
            if cs.len() == 0 {
                return Err(ConnectionError::InvalidColumnOpts);
            }
            Some(cs)
        },
    };
    let cursor_filters = match index {
        Some(i) => if ascending {
            Some((IndexFilter::LessThan(i), IndexFilter::GreaterThan(i)))
        } else {
            Some((IndexFilter::GreaterThan(i), IndexFilter::LessThan(i)))
        },
        None => None,
    };
    Ok(QueryMeta { columns, fetch_count, ascending, parse_previous: index.is_some(), cursor_filters })
}

/// `build_raw` for any page request: `None` when the request's cursor decodes to
/// fewer bytes than an index takes, otherwise what `build_raw` gives.
pub fn try_build_raw<'a>(
    table: &str,
    first: Option<i32>,
    after: Option<String>,
    last: Option<i32>,
    before: Option<String>,
    column_opts: ColumnOpts<'a>,
) -> (res: Option<Result<QueryMeta<'a>, ConnectionError>>)
    requires
        first != Some(-1i32),
        last != Some(-1i32),
    ensures
        res is None <==> cursor_cut_short(first, after, last, before),
        res matches Some(r) ==> planned(table, first, after, last, before, column_opts, r),
{
    let cut_short = match (&first, &last, &after, &before) {
        (Some(_), None, Some(c), _) => is_cursor_too_short(c.as_str().as_bytes()),
        (None, Some(_), _, Some(c)) => is_cursor_too_short(c.as_str().as_bytes()),
        _ => false,
    };
    if cut_short {
        None
    } else {
        Some(build_raw(table, first, after, last, before, column_opts))
    }
}

/// A fetched row of a connection query.
#[derive(Debug, Clone)]
pub struct ConnectionRow<T> {
    /// What the row maps to.
    pub item: T,
    /// The row's index.
    pub index: i64,
    /// When the query counted the rows before the cursor: that count; otherwise 0.
    pub previous_count: i64,
}

/// An item of a page together with its cursor.
#[derive(Debug, Clone)]
pub struct CursorEdge<T> {
    pub node: T,
    pub cursor: String,
}

impl<T> Cursor for CursorEdge<T> {
    open spec fn spec_cursor(&self) -> Seq<char> {
        self.cursor@
    }

    fn cursor(&self) -> (r: String) {
        self.cursor.clone()
    }
}

/// The cursor text of the row at `index` in the table whose name has the bytes `ident`.
pub open spec fn index_cursor(index: i64, ident: Seq<u8>) -> Seq<char> {
    base64_std_encoding(be_bytes(index) + ident)
}

/// The rows a page keeps: all but the extra row fetched to learn whether more follow.
pub open spec fn page_rows<T>(rows: Seq<ConnectionRow<T>>, fetch_count: usize) -> Seq<
    ConnectionRow<T>,
> {
    if rows.len() >= fetch_count && rows.len() > 0 {
        rows.drop_last()
    } else {
        rows
    }
}

/// Whether the query reported rows before the cursor: the first kept row's count.
pub open spec fn reported_previous<T>(kept: Seq<ConnectionRow<T>>, parse_previous: bool) -> bool {
    parse_previous && kept.len() > 0 && kept[0].previous_count > 0
}

/// Turns the rows fetched for `meta` into a page: the extra row is dropped, a backward
/// page (fetched by descending index) is put in ascending index order, each item gets its cursor, and
/// the page info tells whether pages lie before and after.
pub fn page_from_rows<T>(rows: Vec<ConnectionRow<T>>, meta: &QueryMeta, table: &str) -> (res: (
    Vec<CursorEdge<T>>,
    PageInfo,
))
    ensures
        ({
            let kept = page_rows(rows@, meta.fetch_count);
            let ordered = if meta.ascending {
                kept
            } else {
                kept.reverse()
            };
            let has_prev = reported_previous(kept, meta.parse_previous);
            let full = rows@.len() == meta.fetch_count;
            &&& res.0@.len() == ordered.len()
            &&& forall|i: int|
                0 <= i < ordered.len() ==> {
                    &&& (#[trigger] res.0@[i]).node == ordered[i].item
                    &&& res.0@[i].cursor@ == index_cursor(
                        ordered[i].index,
                        vstd::utf8::encode_utf8(table@),
                    )
                    &&& cursor_reads_back(
                        res.0@[i].cursor@,
                        ordered[i].index,
                        vstd::utf8::encode_utf8(table@),
                    )
                }
            &&& res.1.has_previous_page == (if meta.ascending {
                has_prev
            } else {
                full
            })
            &&& res.1.has_next_page == (if meta.ascending {
                full
            } else {
                has_prev
            })
            &&& (res.1.start_cursor is None <==> ordered.len() == 0)
            &&& (res.1.end_cursor is None <==> ordered.len() == 0)
            &&& (ordered.len() > 0 ==> res.1.start_cursor->0@ == res.0@[0].cursor@)
            &&& (ordered.len() > 0 ==> res.1.end_cursor->0@ == res.0@[ordered.len() - 1].cursor@)
        }),
{
    let row_count = rows.len();
    let mut rows = rows;
    if row_count >= meta.fetch_count && row_count > 0 {
        let _ = rows.pop();
    }
    let has_previous = if meta.parse_previous && rows.len() > 0 {
        Some(rows[0].previous_count > 0)
    } else {
        None
    };
    let ghost kept = rows@;
    let ghost ident = vstd::utf8::encode_utf8(table@);
    let mut edges: Vec<CursorEdge<T>> = Vec::new();
    while rows.len() > 0
        invariant
            rows@ == kept.take(rows@.len() as int),
            edges@.len() + rows@.len() == kept.len(),
            ident == vstd::utf8::encode_utf8(table@),
            forall|j: int|
                0 <= j < edges@.len() ==> {
                    &&& (#[trigger] edges@[j]).node == kept[kept.len() - 1 - j].item
                    &&& edges@[j].cursor@ == index_cursor(kept[kept.len() - 1 - j].index, ident)
                    &&& cursor_reads_back(edges@[j].cursor@, kept[kept.len() - 1 - j].index, ident)
                },
        decreases rows.len(),
    {
        let row = rows.pop().unwrap();
        proof {
            assert(rows@ =~= kept.take(rows@.len() as int));
        }
        let mut buf: Vec<u8> = Vec::new();
        let cursor = match encode_cursor(&mut buf, row.index, table.as_bytes()) {
            Ok(c) => c,
            Err(_) => String::new(),
        };
        proof {
            assert(buf@ =~= be_bytes(row.index) + ident);
        }
        edges.push(CursorEdge { node: row.item, cursor });
    }
    if meta.ascending {
        reverse_in_place(&mut edges);
    }
    let (_, has_previous_page, has_next_page) = connection_page_flags(
        row_count,
        meta.fetch_count,
        meta.ascending,
        has_previous,
    );
    let n = edges.len();
    let start_cursor = if n > 0 {
        Some(edges[0].cursor.clone())
    } else {
        None
    };
    let end_cursor = if n > 0 {
        Some(edges[n - 1].cursor.clone())
    } else {
        None
    };
    (edges, PageInfo { has_previous_page, has_next_page, start_cursor, end_cursor })
}

/// Paging on from a page: a request for the `first` rows after a cursor of that page
/// (such as its end cursor) is taken, and asks, in ascending order, for the rows past
/// the cursor's index, counting the rows up to it.
pub proof fn law_next_page_after_cursor(
    table: &str,
    first: i32,
    cursor: String,
    index: i64,
    res: Result<QueryMeta, ConnectionError>,
)
    requires
        first != -1,
        cursor_reads_back(cursor@, index, vstd::utf8::encode_utf8(table@)),
        planned(table, Some(first), Some(cursor), None, None, ColumnOpts::All, res),
    ensures
        !cursor_cut_short(Some(first), Some(cursor), None, None),
        res matches Ok(meta) && meta.ascending && meta.parse_previous && meta.cursor_filters == Some(
            (IndexFilter::LessThan(index), IndexFilter::GreaterThan(index)),
        ),
{
    let ident = vstd::utf8::encode_utf8(table@);
    let other = ident.push(0u8);
    law_cursor_roundtrip(index, ident, other, cursor@);
}

/// Paging back from a page: a request for the `last` rows before a cursor of that page
/// (such as its start cursor) is taken, and asks, in descending order, for the rows
/// before the cursor's index.
pub proof fn law_previous_page_before_cursor(
    table: &str,
    last: i32,
    cursor: String,
    index: i64,
    res: Result<QueryMeta, ConnectionError>,
)
    requires
        last != -1,
        cursor_reads_back(cursor@, index, vstd::utf8::encode_utf8(table@)),
        planned(table, None, None, Some(last), Some(cursor), ColumnOpts::All, res),
    ensures
        !cursor_cut_short(None, None, Some(last), Some(cursor)),
        res matches Ok(meta) && !meta.ascending && meta.parse_previous && meta.cursor_filters == Some(
            (IndexFilter::GreaterThan(index), IndexFilter::LessThan(index)),
        ),
{
    let ident = vstd::utf8::encode_utf8(table@);
    let other = ident.push(0u8);
    law_cursor_roundtrip(index, ident, other, cursor@);
}

} // verus!
