//! How log records are laid out: whether JSON output is asked for, the short tag of
//! each level, and the source-location line of detailed records.
use vstd::prelude::*;

use crate::serde_utils::decimal::{nat_digits, u64_to_text};
use crate::text::chars_of;

verus! {

/// The code of `c` with an ASCII capital letter taken as its small letter.
pub open spec fn ascii_lower_code(c: char) -> u32 {
    if 65 <= (c as u32) <= 90 {
        ((c as u32) + 32) as u32
    } else {
        c as u32
    }
}

/// Whether `a` and `b` are equal when ASCII letters are compared without case.
pub open spec fn eq_ignore_ascii_case(a: Seq<char>, b: Seq<char>) -> bool {
    &&& a.len() == b.len()
    &&& forall|i: int| 0 <= i < a.len() ==> #[trigger] ascii_lower_code(a[i]) == ascii_lower_code(b[i])
}

/// Whether the value of the JSON-output toggle turns JSON output on: `1`, or `true` in
/// any case.
pub open spec fn json_toggle_on(value: Seq<char>) -> bool {
    value == "1"@ || eq_ignore_ascii_case(value, "true"@)
}

/// `c` with an ASCII capital letter taken as its small letter, by code.
fn lower_code(c: char) -> (res: u32)
    ensures
        res == ascii_lower_code(c),
{
    let code = c as u32;
    if 65 <= code && code <= 90 {
        code + 32
    } else {
        code
    }
}

/// Whether the value of the JSON-output toggle turns JSON output on.
pub fn json_toggle(value: &str) -> (res: bool)
    ensures
        res == json_toggle_on(value@),
{
    proof {
        reveal_strlit("1");
        reveal_strlit("true");
    }
    let chars = chars_of(value);
    if chars.len() == 1 && chars[0] == '1' {
        proof {
            assert(value@ =~= "1"@);
        }
        return true;
    }
    if chars.len() != 4 {
        return false;
    }
    let word = chars_of("true");
    let mut i: usize = 0;
    while i < 4
        invariant
            chars@ == value@,
            word@ == "true"@,
            word@.len() == 4,
            chars@.len() == 4,
            i <= 4,
            forall|j: int| 0 <= j < i ==> #[trigger] ascii_lower_code(chars@[j]) == ascii_lower_code(
                word@[j],
            ),
            value@ != "1"@,
        decreases 4 - i,
    {
        if lower_code(chars[i]) != lower_code(word[i]) {
            return false;
        }
        i = i + 1;
    }
    true
}

/// The severity of a log record.
#[derive(Clone, Copy, Debug, PartialEq, Eq, Structural)]
pub enum LogLevel {
    Error,
    Warn,
    Info,
    Debug,
    Trace,
}

impl LogLevel {
    /// The three-letter tag a record of this level starts with.
    pub fn tag(&self) -> (res: &'static str)
        ensures
            res@ == (match *self {
                LogLevel::Error => "ERR"@,
                LogLevel::Warn => "WRN"@,
                LogLevel::Info => "INF"@,
                LogLevel::Debug => "DBG"@,
                LogLevel::Trace => "TRC"@,
            }),
    {
        match self {
            LogLevel::Error => "ERR",
            LogLevel::Warn => "WRN",
            LogLevel::Info => "INF",
            LogLevel::Debug => "DBG",
            LogLevel::Trace => "TRC",
        }
    }
}

/// The text of `value`, or `default` when there is none.
pub open spec fn or_default(value: Option<Seq<char>>, default: Seq<char>) -> Seq<char> {
    match value {
        Some(v) => v,
        None => default,
    }
}

/// The source-location line of a detailed record: indented, the module path, a bar,
/// the file, a colon and the line, with placeholders for what is unknown.
pub open spec fn location_text(module: Option<Seq<char>>, file: Option<Seq<char>>, line: Option<u32>) -> Seq<char> {
    "  "@ + or_default(module, "UNKNOWN_MODULE"@) + "|"@ + or_default(file, "UNKNOWN_FILE"@) + ":"@
        + nat_digits(
        match line {
            Some(l) => l as nat,
            None => 0,
        },
    )
}

/// The view of an optional text.
pub open spec fn opt_view(s: Option<&str>) -> Option<Seq<char>> {
    match s {
        Some(t) => Some(t@),
        None => None,
    }
}

/// The source-location line of a detailed record.
pub fn location_line(module: Option<&str>, file: Option<&str>, line: Option<u32>) -> (res: String)
    ensures
        res@ == location_text(opt_view(module), opt_view(file), line),
{
    let m = match module {
        Some(m) => m,
        None => "UNKNOWN_MODULE",
    };
    let f = match file {
        Some(f) => f,
        None => "UNKNOWN_FILE",
    };
    let l: u32 = match line {
        Some(l) => l,
        None => 0,
    };
    let digits = u64_to_text(l as u64);
    let mut out = String::from_str("  ");
    out.append(m);
    out.append("|");
    out.append(f);
    out.append(":");
    out.append(digits.as_str());
    proof {
        reveal_strlit("  ");
        reveal_strlit("|");
        reveal_strlit(":");
        reveal_strlit("UNKNOWN_MODULE");
        reveal_strlit("UNKNOWN_FILE");
        assert(out@ =~= location_text(opt_view(module), opt_view(file), line));
    }
    out
}

} // verus!
