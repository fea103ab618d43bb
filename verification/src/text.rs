//! Building the text that dispatch hands to the console.

use crate::level::{label_seq, Level};
use crate::record::LogRecord;
use vstd::prelude::*;

verus! {

/// The decimal digit character for `d`.
pub open spec fn digit_char(d: int) -> char {
    if d == 0 {
        '0'
    } else if d == 1 {
        '1'
    } else if d == 2 {
        '2'
    } else if d == 3 {
        '3'
    } else if d == 4 {
        '4'
    } else if d == 5 {
        '5'
    } else if d == 6 {
        '6'
    } else if d == 7 {
        '7'
    } else if d == 8 {
        '8'
    } else {
        '9'
    }
}

/// The decimal numeral of `n`, most significant digit first, without leading
/// zeros (except for `n == 0` itself).
pub open spec fn dec_seq(n: int) -> Seq<char>
    decreases n,
{
    if n < 10 {
        seq![digit_char(n)]
    } else {
        dec_seq(n / 10).push(digit_char(n % 10))
    }
}

/// The one-character string for a single decimal digit.
fn digit_str(d: u32) -> (s: &'static str)
    requires
        d < 10,
    ensures
        s@ == seq![digit_char(d as int)],
{
    proof {
        reveal_strlit("0");
        reveal_strlit("1");
        reveal_strlit("2");
        reveal_strlit("3");
        reveal_strlit("4");
        reveal_strlit("5");
        reveal_strlit("6");
        reveal_strlit("7");
        reveal_strlit("8");
        reveal_strlit("9");
    }
    if d == 0 {
        proof {
            assert("0"@ =~= seq![digit_char(0)]);
        }
        "0"
    } else if d == 1 {
        proof {
            assert("1"@ =~= seq![digit_char(1)]);
        }
        "1"
    } else if d == 2 {
        proof {
            assert("2"@ =~= seq![digit_char(2)]);
        }
        "2"
    } else if d == 3 {
        proof {
            assert("3"@ =~= seq![digit_char(3)]);
        }
        "3"
    } else if d == 4 {
        proof {
            assert("4"@ =~= seq![digit_char(4)]);
        }
        "4"
    } else if d == 5 {
        proof {
            assert("5"@ =~= seq![digit_char(5)]);
        }
        "5"
    } else if d == 6 {
        proof {
            assert("6"@ =~= seq![digit_char(6)]);
        }
        "6"
    } else if d == 7 {
        proof {
            assert("7"@ =~= seq![digit_char(7)]);
        }
        "7"
    } else if d == 8 {
        proof {
            assert("8"@ =~= seq![digit_char(8)]);
        }
        "8"
    } else {
        proof {
            assert("9"@ =~= seq![digit_char(9)]);
        }
        "9"
    }
}

/// The decimal numeral of `n`.
pub fn u32_to_dec(n: u32) -> (s: String)
    ensures
        s@ == dec_seq(n as int),
    decreases n,
{
    if n < 10 {
        String::from_str(digit_str(n))
    } else {
        let mut s = u32_to_dec(n / 10);
        s.append(digit_str(n % 10));
        proof {
            assert(s@ =~= dec_seq(n as int));
        }
        s
    }
}

/// The text handed to the console by unstyled dispatch: exactly the record's
/// display-formatted message.
pub fn unstyled_text(record: &LogRecord) -> (s: String)
    ensures
        s@ == record.message@,
{
    record.message.clone()
}

/// The identifier standing in for the source file: the file where known,
/// else the record's target.
pub open spec fn file_part(r: LogRecord) -> Seq<char> {
    match r.file {
        Some(f) => f@,
        None => r.target@,
    }
}

/// The text standing in for the source line: its decimal numeral where
/// known, else the literal `[Unknown]`.
pub open spec fn line_part(r: LogRecord) -> Seq<char> {
    match r.line {
        Some(n) => dec_seq(n as int),
        None => "[Unknown]"@,
    }
}

/// The composite text of styled dispatch: a `%c` styling placeholder, the
/// level label, another placeholder, the file (or target) and line (or
/// `[Unknown]`) separated by a colon, a third placeholder, and the message
/// on its own line.
pub open spec fn styled_seq(r: LogRecord) -> Seq<char> {
    "%c"@ + label_seq(r.level) + "%c "@ + file_part(r) + ":"@ + line_part(r) + " %c\n"@
        + r.message@
}

/// The text handed to the console by styled dispatch.
pub fn styled_text(record: &LogRecord) -> (s: String)
    ensures
        s@ == styled_seq(*record),
{
    let mut s = String::from_str("%c");
    s.append(record.level.label());
    s.append("%c ");
    match &record.file {
        Some(f) => s.append(f.as_str()),
        None => s.append(record.target.as_str()),
    }
    s.append(":");
    match record.line {
        Some(n) => {
            let d = u32_to_dec(n);
            s.append(d.as_str());
        },
        None => s.append("[Unknown]"),
    }
    s.append(" %c\n");
    s.append(record.message.as_str());
    proof {
        assert(s@ =~= styled_seq(*record));
    }
    s
}

} // verus!
