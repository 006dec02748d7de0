//! Small helpers.
use vstd::prelude::*;
use vstd::std_specs::cmp::PartialEqSpec;

verus! {

/// Whether two texts read the same.
pub fn same_text(a: &str, b: &str) -> (res: bool)
    ensures
        res == (a@ == b@),
{
    a.to_owned() == b.to_owned()
}

/// Calls `concat` on the two texts: the one followed by the other.
#[verifier::external_body]
pub(crate) fn concat_text(a: &str, b: &str) -> (res: String)
    ensures
        res@ == a@ + b@,
{
    [a, b].concat()
}

/// Calls `str::strip_prefix`: what follows `prefix` in `text`, where `text`
/// begins with it.
#[verifier::external_body]
pub(crate) fn text_strip_prefix(text: &str, prefix: &str) -> (res: Option<String>)
    ensures
        match res {
            Some(rest) => text@ == prefix@ + rest@,
            None => !(prefix@.len() <= text@.len() && text@.take(prefix@.len() as int) == prefix@),
        },
{
    match text.strip_prefix(prefix) {
        Some(rest) => Some(rest.to_owned()),
        None => None,
    }
}

/// Calls `str::strip_suffix`: what comes before `suffix` in `text`, where
/// `text` ends with it.
#[verifier::external_body]
pub(crate) fn text_strip_suffix(text: &str, suffix: &str) -> (res: Option<String>)
    ensures
        match res {
            Some(rest) => text@ == rest@ + suffix@,
            None => !(suffix@.len() <= text@.len() && text@.skip(text@.len() - suffix@.len()) == suffix@),
        },
{
    match text.strip_suffix(suffix) {
        Some(rest) => Some(rest.to_owned()),
        None => None,
    }
}

/// The digit `d` as a text.
pub open spec fn digit_text(d: nat) -> Seq<char> {
    if d == 0 {
        "0"@
    } else if d == 1 {
        "1"@
    } else if d == 2 {
        "2"@
    } else if d == 3 {
        "3"@
    } else if d == 4 {
        "4"@
    } else if d == 5 {
        "5"@
    } else if d == 6 {
        "6"@
    } else if d == 7 {
        "7"@
    } else if d == 8 {
        "8"@
    } else {
        "9"@
    }
}

/// The number `n` written in decimal, without leading zeros.
pub open spec fn decimal_text(n: nat) -> Seq<char>
    decreases n,
{
    if n < 10 {
        digit_text(n)
    } else {
        decimal_text(n / 10) + digit_text(n % 10)
    }
}

/// The digit `d` as a text.
fn digit(d: usize) -> (res: &'static str)
    requires
        d < 10,
    ensures
        res@ == digit_text(d as nat),
{
    if d == 0 {
        "0"
    } else if d == 1 {
        "1"
    } else if d == 2 {
        "2"
    } else if d == 3 {
        "3"
    } else if d == 4 {
        "4"
    } else if d == 5 {
        "5"
    } else if d == 6 {
        "6"
    } else if d == 7 {
        "7"
    } else if d == 8 {
        "8"
    } else {
        "9"
    }
}

/// Writes `n` in decimal.
pub fn decimal(n: usize) -> (res: String)
    ensures
        res@ == decimal_text(n as nat),
    decreases n,
{
    if n < 10 {
        digit(n).to_owned()
    } else {
        let front = decimal(n / 10);
        concat_text(front.as_str(), digit(n % 10))
    }
}

/// `a`, if `b` equals it.
pub fn return_if_equal<T>(a: T, b: T) -> (res: Option<T>) where T: Eq
    ensures
        res matches Some(kept) ==> kept == a,
        T::obeys_eq_spec() ==> (res is Some <==> a.eq_spec(&b)),
{
    if a == b {
        Some(a)
    } else {
        None
    }
}

} // verus!
