use vstd::prelude::*;
use vstd::string::StringExecFns;
use crate::request::query_suffix;

verus! {

/// The character for one decimal digit.
pub open spec fn digit_char(d: nat) -> char {
    if d == 0 {
        '0'
    } else if d == 1 {
        '1'
    } else if d == 2 {
        '2'
    } else if d == 3 {
        '3'
    } else if d == 4 {
        '4'
    } else if d == 5 {
        '5'
    } else if d == 6 {
        '6'
    } else if d == 7 {
        '7'
    } else if d == 8 {
        '8'
    } else {
        '9'
    }
}

/// Decimal digits of `n`, most significant first, without leading zeros
/// (a single `0` for zero).
pub open spec fn decimal_digits(n: nat) -> Seq<char>
    decreases n,
{
    if n < 10 {
        seq![digit_char(n)]
    } else {
        decimal_digits(n / 10).push(digit_char(n % 10))
    }
}

fn digit_str(d: u16) -> (r: &'static str)
    requires
        d < 10,
    ensures
        r@ == seq![digit_char(d as nat)],
{
    let r: &'static str = if d == 0 {
        "0"
    } else if d == 1 {
        "1"
    } else if d == 2 {
        "2"
    } else if d == 3 {
        "3"
    } else if d == 4 {
        "4"
    } else if d == 5 {
        "5"
    } else if d == 6 {
        "6"
    } else if d == 7 {
        "7"
    } else if d == 8 {
        "8"
    } else {
        "9"
    };
    proof {
        reveal_strlit("0");
        reveal_strlit("1");
        reveal_strlit("2");
        reveal_strlit("3");
        reveal_strlit("4");
        reveal_strlit("5");
        reveal_strlit("6");
        reveal_strlit("7");
        reveal_strlit("8");
        reveal_strlit("9");
        assert(r@ =~= seq![digit_char(d as nat)]);
    }
    r
}

/// Renders a status code in decimal, most significant digit first, no
/// leading zeros.
pub fn decimal_string(n: u16) -> (r: String)
    ensures
        r@ == decimal_digits(n as nat),
    decreases n,
{
    if n < 10 {
        String::from_str(digit_str(n))
    } else {
        let prefix = decimal_string(n / 10);
        let r = prefix.concat(digit_str(n % 10));
        proof {
            assert(r@ =~= decimal_digits(n as nat));
        }
        r
    }
}

/// The line logged when a request is captured, before dispatch: the
/// method in brackets, then the path, then the query suffix.
pub fn start_line(method: &str, path: &str, raw_query: &str) -> (r: String)
    ensures
        r@ == "["@ + method@ + "] "@ + path@ + query_suffix(raw_query@),
{
    let mut line = String::from_str("[");
    line.append(method);
    line.append("] ");
    line.append(path);
    if !raw_query.is_empty() {
        line.append("?");
        line.append(raw_query);
    }
    proof {
        assert(line@ =~= "["@ + method@ + "] "@ + path@ + query_suffix(raw_query@));
    }
    line
}

/// The line logged when the upstream answered: an arrow, then the relayed
/// status in decimal.
pub fn end_line(status: u16) -> (r: String)
    ensures
        r@ == " => "@ + decimal_digits(status as nat),
{
    let digits = decimal_string(status);
    String::from_str(" => ").concat(digits.as_str())
}

/// The line logged when the outbound attempt failed and the synthetic
/// upstream-unavailable response is about to be relayed.
pub fn failure_line() -> (r: String)
    ensures
        r@ == "FAILED: proxy server unavailable"@,
{
    String::from_str("FAILED: proxy server unavailable")
}

} // verus!
