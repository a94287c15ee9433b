//! The text of an HTTP status: its number, then its reason phrase.

use vstd::prelude::*;

verus! {

/// The reason phrase that the HTTP standards give a status code, if any.
pub uninterp spec fn canonical_reason_of(code: u16) -> Option<Seq<char>>;

/// Relies on http's `StatusCode::from_u16` (re-exported by reqwest) to take
/// the code, and on `StatusCode::canonical_reason` for its reason phrase.
#[verifier::external_body]
fn canonical_reason(code: u16) -> (r: Option<String>)
    ensures
        r matches Some(s) ==> canonical_reason_of(code) == Some(s@),
        r is None ==> canonical_reason_of(code) is None,
{
    match reqwest::StatusCode::from_u16(code) {
        Ok(status) => status.canonical_reason().map(String::from),
        Err(_) => None,
    }
}

/// The decimal digit `d`, for `d` below ten.
pub open spec fn digit(d: nat) -> char {
    if d == 0 {
        '0'
    } else if d == 1 {
        '1'
    } else if d == 2 {
        '2'
    } else if d == 3 {
        '3'
    } else if d == 4 {
        '4'
    } else if d == 5 {
        '5'
    } else if d == 6 {
        '6'
    } else if d == 7 {
        '7'
    } else if d == 8 {
        '8'
    } else {
        '9'
    }
}

/// `n` written in decimal, without leading zeros.
pub open spec fn decimal(n: nat) -> Seq<char>
    decreases n,
{
    if n < 10 {
        seq![digit(n)]
    } else {
        decimal(n / 10).push(digit(n % 10))
    }
}

/// What stands for the reason phrase of a code that has none.
pub open spec fn unknown_reason() -> Seq<char> {
    "<unknown status code>"@
}

/// How a status is shown: its number, a space, and its reason phrase.
pub open spec fn status_text_of(code: u16) -> Seq<char> {
    decimal(code as nat) + " "@ + match canonical_reason_of(code) {
        Some(reason) => reason,
        None => unknown_reason(),
    }
}

/// Whether a status reports success: a code from 200 to 299.
pub open spec fn is_success(code: u16) -> bool {
    200 <= code && code <= 299
}

fn digit_text(d: u16) -> (r: &'static str)
    requires
        d < 10,
    ensures
        r@ == seq![digit(d as nat)],
{
    proof {
        reveal_strlit("0");
        reveal_strlit("1");
        reveal_strlit("2");
        reveal_strlit("3");
        reveal_strlit("4");
        reveal_strlit("5");
        reveal_strlit("6");
        reveal_strlit("7");
        reveal_strlit("8");
        reveal_strlit("9");
    }
    if d == 0 {
        "0"
    } else if d == 1 {
        "1"
    } else if d == 2 {
        "2"
    } else if d == 3 {
        "3"
    } else if d == 4 {
        "4"
    } else if d == 5 {
        "5"
    } else if d == 6 {
        "6"
    } else if d == 7 {
        "7"
    } else if d == 8 {
        "8"
    } else {
        "9"
    }
}

fn append_decimal(n: u16, out: &mut String)
    ensures
        final(out)@ == old(out)@ + decimal(n as nat),
    decreases n,
{
    if n >= 10 {
        append_decimal(n / 10, out);
    }
    out.append(digit_text(n % 10));
    proof {
        if n >= 10 {
            assert(old(out)@ + decimal(n as nat) =~= old(out)@ + decimal((n / 10) as nat) + seq![
                digit((n % 10) as nat),
            ]);
        } else {
            assert(n % 10 == n);
        }
    }
}

/// Whether `code` reports success.
pub fn status_is_success(code: u16) -> (r: bool)
    ensures
        r == is_success(code),
{
    200 <= code && code <= 299
}

/// The text of status `code`: "404 Not Found", say.
pub fn status_text(code: u16) -> (r: String)
    ensures
        r@ == status_text_of(code),
{
    let mut text = String::new();
    append_decimal(code, &mut text);
    text.append(" ");
    match canonical_reason(code) {
        Some(reason) => text.append(reason.as_str()),
        None => text.append("<unknown status code>"),
    }
    text
}

} // verus!
