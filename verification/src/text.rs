//! Text rendering used in row messages, node identifiers and error messages:
//! decimal numbers, the `Debug` rendering of optional values and string lists,
//! and plain concatenation.

use vstd::prelude::*;

verus! {

/// The character of one decimal digit.
pub open spec fn digit_char(d: nat) -> char {
    if d == 0 {
        '0'
    } else if d == 1 {
        '1'
    } else if d == 2 {
        '2'
    } else if d == 3 {
        '3'
    } else if d == 4 {
        '4'
    } else if d == 5 {
        '5'
    } else if d == 6 {
        '6'
    } else if d == 7 {
        '7'
    } else if d == 8 {
        '8'
    } else {
        '9'
    }
}

/// Decimal notation of a natural number, most significant digit first, no leading zeros.
pub open spec fn nat_decimal(n: nat) -> Seq<char>
    decreases n,
{
    if n < 10 {
        seq![digit_char(n)]
    } else {
        nat_decimal(n / 10).push(digit_char(n % 10))
    }
}

/// Decimal notation of an integer, with a leading `-` when it is negative
/// (what `Display` and `Debug` print for Rust's integer types).
pub open spec fn int_decimal(n: int) -> Seq<char> {
    if n < 0 {
        seq!['-'] + nat_decimal((-n) as nat)
    } else {
        nat_decimal(n as nat)
    }
}

/// What `format!("{:?}", s)` prints for a string: the string quoted and escaped.
/// Its exact form is std's escaping rules; it is a function of the text alone.
pub uninterp spec fn debug_str_text(s: Seq<char>) -> Seq<char>;

/// `Debug` of `Option<String>`.
pub open spec fn debug_opt_str_text(o: Option<String>) -> Seq<char> {
    match o {
        Some(s) => "Some("@ + debug_str_text(s@) + ")"@,
        None => "None"@,
    }
}

/// `Debug` of `bool`.
pub open spec fn bool_text(b: bool) -> Seq<char> {
    if b {
        "true"@
    } else {
        "false"@
    }
}

/// `Debug` of `Option<bool>`.
pub open spec fn debug_opt_bool_text(o: Option<bool>) -> Seq<char> {
    match o {
        Some(b) => "Some("@ + bool_text(b) + ")"@,
        None => "None"@,
    }
}

/// `Debug` of `Option<i32>`.
pub open spec fn debug_opt_i32_text(o: Option<i32>) -> Seq<char> {
    match o {
        Some(n) => "Some("@ + int_decimal(n as int) + ")"@,
        None => "None"@,
    }
}

/// The entries of a `Debug` list of strings, separated by `", "`.
pub open spec fn debug_entries_text(items: Seq<String>) -> Seq<char>
    decreases items.len(),
{
    if items.len() == 0 {
        Seq::empty()
    } else if items.len() == 1 {
        debug_str_text(items[0]@)
    } else {
        debug_entries_text(items.drop_last()) + ", "@ + debug_str_text(items.last()@)
    }
}

/// `Debug` of `Vec<String>`: `[` entries `]`.
pub open spec fn debug_list_text(items: Seq<String>) -> Seq<char> {
    "["@ + debug_entries_text(items) + "]"@
}

/// std's `Debug` of `&str` (`format!("{:?}", s)`); the result is named by `debug_str_text`.
#[verifier::external_body]
fn debug_quoted(s: &str) -> (r: String)
    ensures
        r@ == debug_str_text(s@),
{
    format!("{:?}", s)
}

/// The string of one decimal digit.
fn digit_str(d: u64) -> (s: &'static str)
    requires
        d < 10,
    ensures
        s@ == seq![digit_char(d as nat)],
{
    proof {
        reveal_strlit("0");
        reveal_strlit("1");
        reveal_strlit("2");
        reveal_strlit("3");
        reveal_strlit("4");
        reveal_strlit("5");
        reveal_strlit("6");
        reveal_strlit("7");
        reveal_strlit("8");
        reveal_strlit("9");
    }
    if d == 0 {
        "0"
    } else if d == 1 {
        "1"
    } else if d == 2 {
        "2"
    } else if d == 3 {
        "3"
    } else if d == 4 {
        "4"
    } else if d == 5 {
        "5"
    } else if d == 6 {
        "6"
    } else if d == 7 {
        "7"
    } else if d == 8 {
        "8"
    } else {
        "9"
    }
}

/// Appends the decimal notation of `n` to `out`.
pub fn push_decimal(out: &mut String, n: u64)
    ensures
        final(out)@ == old(out)@ + nat_decimal(n as nat),
    decreases n,
{
    if n < 10 {
        out.append(digit_str(n));
    } else {
        push_decimal(out, n / 10);
        out.append(digit_str(n % 10));
        proof {
            assert(old(out)@ + nat_decimal((n / 10) as nat) + seq![digit_char((n % 10) as nat)]
                =~= old(out)@ + nat_decimal(n as nat));
        }
    }
}

/// Appends the decimal notation of a signed number to `out`.
pub fn push_int_decimal(out: &mut String, n: i64)
    ensures
        final(out)@ == old(out)@ + int_decimal(n as int),
{
    if n < 0 {
        out.append("-");
        proof {
            reveal_strlit("-");
        }
        let m: u64 = if n == i64::MIN {
            9223372036854775808u64
        } else {
            (-n) as u64
        };
        push_decimal(out, m);
        proof {
            assert(old(out)@ + seq!['-'] + nat_decimal(m as nat) =~= old(out)@ + int_decimal(
                n as int,
            ));
        }
    } else {
        push_decimal(out, n as u64);
    }
}

/// Appends the `Debug` text of an optional string to `out`.
pub fn push_debug_opt_str(out: &mut String, o: &Option<String>)
    ensures
        final(out)@ == old(out)@ + debug_opt_str_text(*o),
{
    match o {
        Some(s) => {
            out.append("Some(");
            let q = debug_quoted(s.as_str());
            out.append(q.as_str());
            out.append(")");
            assert(final(out)@ =~= old(out)@ + debug_opt_str_text(*o));
        },
        None => {
            out.append("None");
        },
    }
}

/// Appends the `Debug` text of an optional flag to `out`.
pub fn push_debug_opt_bool(out: &mut String, o: Option<bool>)
    ensures
        final(out)@ == old(out)@ + debug_opt_bool_text(o),
{
    match o {
        Some(b) => {
            out.append("Some(");
            if b {
                out.append("true");
            } else {
                out.append("false");
            }
            out.append(")");
            assert(final(out)@ =~= old(out)@ + debug_opt_bool_text(o));
        },
        None => {
            out.append("None");
        },
    }
}

/// Appends the `Debug` text of an optional number to `out`.
pub fn push_debug_opt_i32(out: &mut String, o: Option<i32>)
    ensures
        final(out)@ == old(out)@ + debug_opt_i32_text(o),
{
    match o {
        Some(n) => {
            out.append("Some(");
            push_int_decimal(out, n as i64);
            out.append(")");
            assert(final(out)@ =~= old(out)@ + debug_opt_i32_text(o));
        },
        None => {
            out.append("None");
        },
    }
}

/// Appends the `Debug` text of a list of strings to `out`.
pub fn push_debug_list(out: &mut String, items: &Vec<String>)
    ensures
        final(out)@ == old(out)@ + debug_list_text(items@),
{
    let ghost start = out@;
    out.append("[");
    let mut i: usize = 0;
    while i < items.len()
        invariant
            i <= items.len(),
            out@ == start + "["@ + debug_entries_text(items@.take(i as int)),
        decreases items.len() - i,
    {
        if i > 0 {
            out.append(", ");
        }
        let q = debug_quoted(items[i].as_str());
        out.append(q.as_str());
        proof {
            let t = items@.take(i + 1);
            assert(t.drop_last() =~= items@.take(i as int));
            assert(t.last() == items@[i as int]);
            if i == 0 {
                assert(t.len() == 1);
                assert(t[0] == items@[0]);
                assert(items@.take(0) =~= Seq::<String>::empty());
            }
        }
        i = i + 1;
    }
    out.append("]");
    assert(items@.take(items.len() as int) =~= items@);
    assert(out@ =~= start + debug_list_text(items@));
}

/// Copies a string.
pub fn copy_string(s: &String) -> (r: String)
    ensures
        r@ == s@,
{
    s.clone()
}

/// Copies an optional string.
pub fn copy_opt_string(o: &Option<String>) -> (r: Option<String>)
    ensures
        r == *o,
{
    match o {
        Some(s) => Some(s.clone()),
        None => None,
    }
}

/// Copies a list of strings.
pub fn copy_string_list(v: &Vec<String>) -> (r: Vec<String>)
    ensures
        r@ == v@,
{
    let r = v.clone();
    assert(r@ =~= v@);
    r
}

} // verus!
