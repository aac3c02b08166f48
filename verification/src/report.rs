//! Text of the diagnostics the TLCP layer reports: decimal error codes,
//! stage-prefixed error lines, and the multi-part report of a failed
//! handshake.

use vstd::prelude::*;
use vstd::string::*;

verus! {

/// The decimal digit character for `d` (`0 <= d < 10`).
pub open spec fn digit_char(d: int) -> char {
    (48 + d) as char
}

/// Decimal digits of a natural number, most significant first, without
/// leading zeros.
pub open spec fn nat_digits(n: nat) -> Seq<char>
    decreases n,
{
    if n < 10 {
        seq![digit_char(n as int)]
    } else {
        nat_digits(n / 10).push(digit_char((n % 10) as int))
    }
}

/// Decimal notation of an integer, with a leading `-` when negative.
pub open spec fn decimal(n: int) -> Seq<char> {
    if n < 0 {
        seq!['-'] + nat_digits((-n) as nat)
    } else {
        nat_digits(n as nat)
    }
}

/// `parts` joined with `sep` between neighbours.
pub open spec fn join(parts: Seq<Seq<char>>, sep: Seq<char>) -> Seq<char>
    decreases parts.len(),
{
    if parts.len() == 0 {
        Seq::empty()
    } else if parts.len() == 1 {
        parts[0]
    } else {
        join(parts.drop_last(), sep) + sep + parts.last()
    }
}

/// The line reported when stage `stage` fails with an error whose display
/// text is `shown` and whose debug text is `debug`.
pub open spec fn stage_message(stage: Seq<char>, shown: Seq<char>, debug: Seq<char>) -> Seq<char> {
    stage + ": "@ + shown + "; debug: "@ + debug
}

/// The parts of the report on a failed TLCP handshake, in order.
pub open spec fn handshake_report_parts(
    code: int,
    shown: Seq<char>,
    io: Option<Seq<char>>,
    stack: Option<Seq<char>>,
    debug: Seq<char>,
) -> Seq<Seq<char>> {
    let head = seq!["OpenSSL error code "@ + decimal(code), shown];
    let with_io = match io {
        Some(m) => head.push("io: "@ + m),
        None => head,
    };
    let with_stack = match stack {
        Some(s) => if s.len() > 0 {
            with_io.push("stack: "@ + s)
        } else {
            with_io
        },
        None => with_io,
    };
    with_stack.push("debug: "@ + debug)
}

/// The report on a failed TLCP handshake: its parts joined with `"; "`.
pub open spec fn handshake_report(
    code: int,
    shown: Seq<char>,
    io: Option<Seq<char>>,
    stack: Option<Seq<char>>,
    debug: Seq<char>,
) -> Seq<char> {
    join(handshake_report_parts(code, shown, io, stack, debug), "; "@)
}

pub open spec fn string_views(v: Seq<String>) -> Seq<Seq<char>> {
    v.map_values(|s: String| s@)
}

fn digit_str(d: u32) -> (r: &'static str)
    requires
        d < 10,
    ensures
        r@ == seq![digit_char(d as int)],
{
    match d {
        0 => {
            proof {
                reveal_strlit("0");
            }
            "0"
        },
        1 => {
            proof {
                reveal_strlit("1");
            }
            "1"
        },
        2 => {
            proof {
                reveal_strlit("2");
            }
            "2"
        },
        3 => {
            proof {
                reveal_strlit("3");
            }
            "3"
        },
        4 => {
            proof {
                reveal_strlit("4");
            }
            "4"
        },
        5 => {
            proof {
                reveal_strlit("5");
            }
            "5"
        },
        6 => {
            proof {
                reveal_strlit("6");
            }
            "6"
        },
        7 => {
            proof {
                reveal_strlit("7");
            }
            "7"
        },
        8 => {
            proof {
                reveal_strlit("8");
            }
            "8"
        },
        _ => {
            proof {
                reveal_strlit("9");
            }
            "9"
        },
    }
}

/// Decimal digits of `n`.
pub fn nat_decimal(n: u32) -> (r: String)
    ensures
        r@ == nat_digits(n as nat),
    decreases n,
{
    if n < 10 {
        digit_str(n).to_owned()
    } else {
        let mut s = nat_decimal(n / 10);
        s.append(digit_str(n % 10));
        s
    }
}

/// Decimal notation of `n`.
pub fn decimal_i32(n: i32) -> (r: String)
    ensures
        r@ == decimal(n as int),
{
    if n < 0 {
        let magnitude: u32 = (0i64 - (n as i64)) as u32;
        let digits = nat_decimal(magnitude);
        let mut s = "-".to_owned();
        proof {
            reveal_strlit("-");
        }
        s.append(digits.as_str());
        s
    } else {
        nat_decimal(n as u32)
    }
}

/// `parts` joined with `sep` between neighbours.
pub fn join_parts(parts: &Vec<String>, sep: &str) -> (r: String)
    ensures
        r@ == join(string_views(parts@), sep@),
{
    let mut r = String::new();
    let mut i: usize = 0;
    while i < parts.len()
        invariant
            i <= parts.len(),
            r@ == join(string_views(parts@).take(i as int), sep@),
        decreases parts.len() - i,
    {
        let ghost before = string_views(parts@).take(i as int);
        let ghost after = string_views(parts@).take(i + 1);
        assert(after.drop_last() =~= before);
        assert(after.last() == parts@[i as int]@);
        if i > 0 {
            r.append(sep);
        } else {
            assert(before =~= Seq::<Seq<char>>::empty());
        }
        r.append(parts[i].as_str());
        i = i + 1;
    }
    assert(string_views(parts@).take(parts.len() as int) =~= string_views(parts@));
    r
}

/// The line reported when stage `stage` fails with an error shown as
/// `shown` and debug-printed as `debug`.
pub fn stage_error_text(stage: &str, shown: &str, debug: &str) -> (r: String)
    ensures
        r@ == stage_message(stage@, shown@, debug@),
{
    let mut r = stage.to_owned();
    r.append(": ");
    r.append(shown);
    r.append("; debug: ");
    r.append(debug);
    r
}

/// The report on a failed TLCP handshake, from the parts of the error:
/// its code, its display text, the text of its I/O error and of its
/// error stack when it has them, and its debug text. An empty error stack
/// is left out.
pub fn handshake_error_report(
    code: i32,
    shown: String,
    io: Option<String>,
    stack: Option<String>,
    debug: String,
) -> (r: String)
    ensures
        r@ == handshake_report(code as int, shown@, string_opt(io), string_opt(stack), debug@),
{
    let mut parts: Vec<String> = Vec::new();
    let mut head = "OpenSSL error code ".to_owned();
    head.append(decimal_i32(code).as_str());
    parts.push(head);
    parts.push(shown);
    match io {
        Some(m) => {
            let mut line = "io: ".to_owned();
            line.append(m.as_str());
            parts.push(line);
        },
        None => {},
    }
    match stack {
        Some(s) => {
            if !s.as_str().is_empty() {
                let mut line = "stack: ".to_owned();
                line.append(s.as_str());
                parts.push(line);
            }
        },
        None => {},
    }
    let mut last = "debug: ".to_owned();
    last.append(debug.as_str());
    parts.push(last);
    assert(string_views(parts@) =~= handshake_report_parts(
        code as int,
        shown@,
        string_opt(io),
        string_opt(stack),
        debug@,
    ));
    join_parts(&parts, "; ")
}

/// The view of an optional string.
pub open spec fn string_opt(s: Option<String>) -> Option<Seq<char>> {
    match s {
        Some(x) => Some(x@),
        None => None,
    }
}

} // verus!
