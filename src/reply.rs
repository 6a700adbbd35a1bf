use vstd::prelude::*;
use vstd::string::*;
use vstd::utf8::encode_utf8;
use crate::storage::opt_view;

verus! {

/// Reply to a command that succeeded with nothing to return.
pub open spec fn ok_text() -> Seq<char> {
    "+OK\r\n"@
}

/// Reply to a read of a key that holds no value.
pub open spec fn nil_text() -> Seq<char> {
    "$-1\r\n"@
}

/// Reply to `GET` with an argument count other than one.
pub open spec fn get_arity_text() -> Seq<char> {
    "-ERR wrong number of arguments for 'get' command\r\n"@
}

/// Reply to `SET` with an argument count other than two.
pub open spec fn set_arity_text() -> Seq<char> {
    "-ERR wrong number of arguments for 'set' command\r\n"@
}

/// Reply to a command name that the registry does not hold.
pub open spec fn unknown_text(name: Seq<char>) -> Seq<char> {
    "-ERR unknown command '"@ + name + "'\r\n"@
}

/// The decimal digit for `d`, which is below ten.
pub open spec fn digit_char(d: nat) -> char {
    "0123456789"@[d as int]
}

/// `n` written in decimal, without leading zeros.
pub open spec fn decimal(n: nat) -> Seq<char>
    decreases n,
{
    if n < 10 {
        seq![digit_char(n)]
    } else {
        decimal(n / 10) + seq![digit_char(n % 10)]
    }
}

/// The bulk reply that carries `v`: its length in UTF-8 bytes, then `v`.
pub open spec fn bulk_text(v: Seq<char>) -> Seq<char> {
    "$"@ + decimal(encode_utf8(v).len()) + "\r\n"@ + v + "\r\n"@
}

/// Reply to a read that found `v`: a bulk reply, or the nil reply when absent.
pub open spec fn value_text(v: Option<Seq<char>>) -> Seq<char> {
    match v {
        Some(s) => bulk_text(s),
        None => nil_text(),
    }
}

/// `+OK`: the command succeeded.
pub fn ok_reply() -> (r: String)
    ensures
        r@ == ok_text(),
{
    String::from_str("+OK\r\n")
}

/// `$-1`: no value under the key.
pub fn nil_reply() -> (r: String)
    ensures
        r@ == nil_text(),
{
    String::from_str("$-1\r\n")
}

/// The arity error of `GET`.
pub fn get_arity_reply() -> (r: String)
    ensures
        r@ == get_arity_text(),
{
    String::from_str("-ERR wrong number of arguments for 'get' command\r\n")
}

/// The arity error of `SET`.
pub fn set_arity_reply() -> (r: String)
    ensures
        r@ == set_arity_text(),
{
    String::from_str("-ERR wrong number of arguments for 'set' command\r\n")
}

/// The error for a command name that nothing is registered under.
pub fn unknown_reply(name: &str) -> (r: String)
    ensures
        r@ == unknown_text(name@),
{
    let r = String::from_str("-ERR unknown command '").concat(name).concat("'\r\n");
    assert(r@ =~= unknown_text(name@));
    r
}

/// The single decimal digit `d` as a string.
fn digit_string(d: usize) -> (r: String)
    requires
        d < 10,
    ensures
        r@ == seq![digit_char(d as nat)],
{
    let digits = "0123456789";
    proof {
        reveal_strlit("0123456789");
    }
    let r = String::from_str(digits.substring_char(d, d + 1));
    assert(r@ =~= seq![digit_char(d as nat)]);
    r
}

/// `n` in decimal.
pub fn decimal_string(n: usize) -> (r: String)
    ensures
        r@ == decimal(n as nat),
{
    let mut s = digit_string(n % 10);
    let mut m: usize = n / 10;
    while m > 0
        invariant
            m == 0 ==> s@ == decimal(n as nat),
            m > 0 ==> decimal(n as nat) == decimal(m as nat) + s@,
        decreases m,
    {
        let d = digit_string(m % 10);
        let next = d.concat(s.as_str());
        proof {
            if m >= 10 {
                assert(decimal(m as nat) == decimal((m / 10) as nat) + seq![digit_char((m % 10) as nat)]);
                assert(decimal(m as nat) + s@ =~= decimal((m / 10) as nat) + next@);
            } else {
                assert(next@ =~= decimal(m as nat) + s@);
            }
        }
        s = next;
        m = m / 10;
    }
    s
}

/// The bulk reply that carries `v`.
pub fn bulk_reply(v: &str) -> (r: String)
    ensures
        r@ == bulk_text(v@),
{
    let n = v.as_bytes().len();
    let r = String::from_str("$").concat(decimal_string(n).as_str()).concat("\r\n").concat(v).concat("\r\n");
    assert(r@ =~= bulk_text(v@));
    r
}

/// Reply to a read that found `value`.
pub fn value_reply(value: Option<String>) -> (r: String)
    ensures
        r@ == value_text(opt_view(value)),
{
    match value {
        Some(s) => bulk_reply(s.as_str()),
        None => nil_reply(),
    }
}

} // verus!
