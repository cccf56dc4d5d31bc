//! Relay-style connection paging: argument validation, page trimming and page flags.
use vstd::prelude::*;

use crate::serde_utils::decimal::{nat_digits, u64_to_text};

verus! {

/// Largest page a connection serves unless the caller sets another limit.
pub const MAX_PAGE_SIZE: usize = 200;

/// Why connection arguments were refused.
#[derive(Debug, PartialEq, Eq, Structural)]
pub enum PaginationError {
    /// `first` and `last` were both given.
    FirstAndLast,
    FirstNegative,
    /// `first` exceeds the page size limit, which is carried.
    FirstTooLarge(usize),
    LastNegative,
    LastTooLarge(usize),
    /// The combination of cursors and counts names no page.
    InvalidParameters,
}

/// The message a refused connection argument is reported with.
pub open spec fn pagination_message(e: PaginationError) -> Seq<char> {
    match e {
        PaginationError::FirstAndLast => "The \"first\" and \"last\" parameters cannot exist at the same time"@,
        PaginationError::FirstNegative => "The \"first\" parameter must be a non-negative number"@,
        PaginationError::FirstTooLarge(m) => "The \"first\" parameter must be at most "@ + nat_digits(m as nat),
        PaginationError::LastNegative => "The \"last\" parameter must be a non-negative number"@,
        PaginationError::LastTooLarge(m) => "The \"last\" parameter must be at most "@ + nat_digits(m as nat),
        PaginationError::InvalidParameters => "Invalid pagination parameters"@,
    }
}

impl PaginationError {
    /// The message the error is reported with.
    pub fn message(&self) -> (res: String)
        ensures
            res@ == pagination_message(*self),
    {
        match self {
            PaginationError::FirstAndLast => "The \"first\" and \"last\" parameters cannot exist at the same time".to_owned(),
            PaginationError::FirstNegative => "The \"first\" parameter must be a non-negative number".to_owned(),
            PaginationError::FirstTooLarge(m) => {
                let digits = u64_to_text(*m as u64);
                "The \"first\" parameter must be at most ".to_owned().concat(digits.as_str())
            },
            PaginationError::LastNegative => "The \"last\" parameter must be a non-negative number".to_owned(),
            PaginationError::LastTooLarge(m) => {
                let digits = u64_to_text(*m as u64);
                "The \"last\" parameter must be at most ".to_owned().concat(digits.as_str())
            },
            PaginationError::InvalidParameters => "Invalid pagination parameters".to_owned(),
        }
    }
}

/// A page of a connection, as the relay specification describes it.
#[derive(Debug, Clone, PartialEq, Eq)]
pub struct PageInfo {
    pub has_previous_page: bool,
    pub has_next_page: bool,
    pub start_cursor: Option<String>,
    pub end_cursor: Option<String>,
}

/// An item that can name its own position in a connection.
pub trait Cursor {
    /// The text of the item's cursor.
    spec fn spec_cursor(&self) -> Seq<char>;

    fn cursor(&self) -> (r: String)
        ensures
            r@ == self.spec_cursor(),
    ;
}

/// A count argument checked against the page size limit.
pub open spec fn checked_count(count: Option<i32>, max: usize) -> Option<Option<usize>> {
    match count {
        None => Some(None),
        Some(c) => if c < 0 || c > max {
            None
        } else {
            Some(Some(c as usize))
        },
    }
}

/// Checks `first`/`last` against the page size limit (200 unless given) and picks
/// the paging direction: forward (`true`) with `first` items when paging after a
/// cursor, or backward (`false`) with `last` items when paging before one.
pub fn validate_connection<T>(
    after: Option<&T>,
    before: Option<&T>,
    first: Option<i32>,
    last: Option<i32>,
    max_page_size: Option<usize>,
) -> (res: Result<(bool, usize), PaginationError>)
    ensures
        ({
            let max = match max_page_size {
                Some(m) => m,
                None => MAX_PAGE_SIZE,
            };
            &&& first is Some && last is Some ==> res == Err::<(bool, usize), PaginationError>(
                PaginationError::FirstAndLast,
            )
            &&& last is None && first is Some && first->0 < 0 ==> res == Err::<
                (bool, usize),
                PaginationError,
            >(PaginationError::FirstNegative)
            &&& last is None && first is Some && first->0 >= 0 && first->0 > max ==> res == Err::<
                (bool, usize),
                PaginationError,
            >(PaginationError::FirstTooLarge(max))
            &&& first is None && last is Some && last->0 < 0 ==> res == Err::<
                (bool, usize),
                PaginationError,
            >(PaginationError::LastNegative)
            &&& first is None && last is Some && last->0 >= 0 && last->0 > max ==> res == Err::<
                (bool, usize),
                PaginationError,
            >(PaginationError::LastTooLarge(max))
            &&& first is None && last is None ==> res == Err::<(bool, usize), PaginationError>(
                PaginationError::InvalidParameters,
            )
            &&& last is None && first is Some && 0 <= first->0 <= max ==> res == (if before is None {
                Ok::<(bool, usize), PaginationError>((true, first->0 as usize))
            } else {
                Err(PaginationError::InvalidParameters)
            })
            &&& first is None && last is Some && 0 <= last->0 <= max ==> res == (if after is None {
                Ok::<(bool, usize), PaginationError>((false, last->0 as usize))
            } else {
                Err(PaginationError::InvalidParameters)
            })
        }),
{
    let max = match max_page_size {
        Some(m) => m,
        None => MAX_PAGE_SIZE,
    };
    if first.is_some() && last.is_some() {
        return Err(PaginationError::FirstAndLast);
    }
    let first = match first {
        Some(f) => {
            if f < 0 {
                return Err(PaginationError::FirstNegative);
            }
            if f as usize > max {
                return Err(PaginationError::FirstTooLarge(max));
            }
            Some(f as usize)
        },
        None => None,
    };
    let last = match last {
        Some(l) => {
            if l < 0 {
                return Err(PaginationError::LastNegative);
            }
            if l as usize > max {
                return Err(PaginationError::LastTooLarge(max));
            }
            Some(l as usize)
        },
        None => None,
    };
    match (before, first, last) {
        (None, Some(f), None) => Ok((true, f)),
        _ => match (after, first, last) {
            (None, None, Some(l)) => Ok((false, l)),
            _ => Err(PaginationError::InvalidParameters),
        },
    }
}

/// The items kept on a page: one item more than `count` was fetched to learn whether
/// more exist, and is dropped.
pub open spec fn kept_items<T>(fetched: Seq<T>, count: usize) -> Seq<T> {
    if fetched.len() > count {
        fetched.drop_last()
    } else {
        fetched
    }
}

/// A page drops a fetched item only when more than `count` were fetched, and then just
/// the last one: a page of at most `count` items is kept whole, and one of more keeps
/// all but its last item, in order.
pub proof fn law_page_keeps_fetched_items<T>(fetched: Seq<T>, count: usize)
    ensures
        fetched.len() <= count ==> kept_items(fetched, count) == fetched,
        fetched.len() > count ==> kept_items(fetched, count).len() == fetched.len() - 1,
        forall|i: int|
            0 <= i < kept_items(fetched, count).len() ==> #[trigger] kept_items(fetched, count)[i]
                == fetched[i],
        kept_items(fetched, count).len() == (if fetched.len() > count {
            fetched.len() - 1
        } else {
            fetched.len() as int
        }),
{
}

/// Reverses `data` in place.
pub fn reverse_in_place<T>(data: &mut Vec<T>)
    ensures
        final(data)@ == old(data)@.reverse(),
{
    let mut out: Vec<T> = Vec::new();
    let ghost orig = data@;
    while data.len() > 0
        invariant
            orig.len() == data@.len() + out@.len(),
            data@ == orig.take(data@.len() as int),
            out@ == orig.skip(data@.len() as int).reverse(),
        decreases data.len(),
    {
        let x = data.pop().unwrap();
        proof {
            assert(orig.take(data@.len() as int) =~= orig.take(data@.len() as int + 1).drop_last());
        }
        out.push(x);
        proof {
            assert(out@ =~= orig.skip(data@.len() as int).reverse());
        }
    }
    proof {
        assert(orig.skip(0) =~= orig);
    }
    *data = out;
}

/// Trims a fetched page to `count` items, puts it in display order (a backward page
/// was fetched newest first and is reversed), and reports the neighbouring pages.
pub fn finalize_page_info<T: Cursor>(
    data: &mut Vec<T>,
    count: usize,
    is_ascending: bool,
    has_after: bool,
    has_before: bool,
) -> (res: PageInfo)
    ensures
        final(data)@ == (if is_ascending {
            kept_items(old(data)@, count)
        } else {
            kept_items(old(data)@, count).reverse()
        }),
        old(data)@.len() <= count ==> final(data)@ == (if is_ascending {
            old(data)@
        } else {
            old(data)@.reverse()
        }),
        final(data)@.len() == (if old(data)@.len() > count {
            old(data)@.len() - 1
        } else {
            old(data)@.len() as int
        }),
        res.has_previous_page == (if is_ascending {
            has_after
        } else {
            old(data)@.len() > count
        }),
        res.has_next_page == (if is_ascending {
            old(data)@.len() > count
        } else {
            has_before
        }),
        match res.start_cursor {
            Some(c) => final(data)@.len() > 0 && c@ == final(data)@[0].spec_cursor(),
            None => final(data)@.len() == 0,
        },
        match res.end_cursor {
            Some(c) => final(data)@.len() > 0 && c@ == final(data)@.last().spec_cursor(),
            None => final(data)@.len() == 0,
        },
{
    let has_more = data.len() > count;
    if has_more {
        let _ = data.pop();
    }
    let (has_previous_page, has_next_page) = if is_ascending {
        (has_after, has_more)
    } else {
        reverse_in_place(data);
        (has_more, has_before)
    };
    let n = data.len();
    let start_cursor = if n > 0 {
        Some(data[0].cursor())
    } else {
        None
    };
    let end_cursor = if n > 0 {
        Some(data[n - 1].cursor())
    } else {
        None
    };
    PageInfo { has_previous_page, has_next_page, start_cursor, end_cursor }
}

} // verus!
