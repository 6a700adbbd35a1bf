use vstd::prelude::*;
use vstd::string::*;

verus! {

/// Unicode's `White_Space` property, the set that `char::is_whitespace` tests.
pub open spec fn is_white(c: char) -> bool {
    let u = c as u32;
    (0x9 <= u && u <= 0xD) || u == 0x20 || u == 0x85 || u == 0xA0 || u == 0x1680 || (0x2000 <= u
        && u <= 0x200A) || u == 0x2028 || u == 0x2029 || u == 0x202F || u == 0x205F || u == 0x3000
}

/// Splitting `s` from the left: the tokens already closed by whitespace, and
/// the token still being read at the end of `s`.
pub open spec fn scan(s: Seq<char>) -> (Seq<Seq<char>>, Seq<char>)
    decreases s.len(),
{
    if s.len() == 0 {
        (Seq::empty(), Seq::empty())
    } else {
        let prev = scan(s.drop_last());
        let c = s.last();
        if is_white(c) {
            if prev.1.len() > 0 {
                (prev.0.push(prev.1), Seq::empty())
            } else {
                (prev.0, Seq::empty())
            }
        } else {
            (prev.0, prev.1.push(c))
        }
    }
}

/// The maximal runs of non-whitespace characters of `s`, in order.
pub open spec fn tokens(s: Seq<char>) -> Seq<Seq<char>> {
    let st = scan(s);
    if st.1.len() > 0 {
        st.0.push(st.1)
    } else {
        st.0
    }
}

/// The characters of each string.
pub open spec fn views(v: Seq<String>) -> Seq<Seq<char>> {
    v.map_values(|s: String| s@)
}

// What `String::from_utf8_lossy` makes of some bytes.
pub uninterp spec fn lossy_text(b: Seq<u8>) -> Seq<char>;

// What `str::to_uppercase` makes of some text.
pub uninterp spec fn upper_text(s: Seq<char>) -> Seq<char>;

/// Relies on `String::from_utf8_lossy`: decodes UTF-8, replacing invalid
/// sequences; the text depends on the bytes alone.
#[verifier::external_body]
fn decode_lossy(b: &[u8]) -> (r: String)
    ensures
        r@ == lossy_text(b@),
{
    String::from_utf8_lossy(b).into_owned()
}

/// Relies on `str::to_uppercase`: the uppercase form depends on the text alone.
#[verifier::external_body]
pub(crate) fn uppercase(s: &str) -> (r: String)
    ensures
        r@ == upper_text(s@),
{
    s.to_uppercase()
}

/// Whether `c` is whitespace.
pub fn is_white_char(c: char) -> (r: bool)
    ensures
        r == is_white(c),
{
    let u = c as u32;
    (0x9 <= u && u <= 0xD) || u == 0x20 || u == 0x85 || u == 0xA0 || u == 0x1680 || (0x2000 <= u
        && u <= 0x200A) || u == 0x2028 || u == 0x2029 || u == 0x202F || u == 0x205F || u == 0x3000
}

/// Splits `text` on runs of whitespace; leading and trailing whitespace
/// yield no empty token.
pub fn tokenize(text: &str) -> (r: Vec<String>)
    ensures
        views(r@) == tokens(text@),
{
    let n = text.unicode_len();
    let mut out: Vec<String> = Vec::new();
    let mut start: usize = 0;
    let mut i: usize = 0;
    while i < n
        invariant
            n == text@.len(),
            start <= i <= n,
            scan(text@.take(i as int)) == (views(out@), text@.subrange(start as int, i as int)),
        decreases n - i,
    {
        let c = text.get_char(i);
        let ghost before = views(out@);
        assert(text@.take(i + 1).drop_last() =~= text@.take(i as int));
        assert(text@.take(i + 1).last() == c);
        if is_white_char(c) {
            if start < i {
                let t = String::from_str(text.substring_char(start, i));
                out.push(t);
                assert(views(out@) =~= before.push(text@.subrange(start as int, i as int)));
            }
            start = i + 1;
        } else {
            assert(text@.subrange(start as int, i + 1) =~= text@.subrange(start as int, i as int).push(c));
        }
        i = i + 1;
        assert(text@.subrange(start as int, i as int).len() == 0 || !is_white(c));
    }
    assert(text@.take(n as int) =~= text@);
    if start < n {
        let ghost before = views(out@);
        let t = String::from_str(text.substring_char(start, n));
        out.push(t);
        assert(views(out@) =~= before.push(text@.subrange(start as int, n as int)));
    }
    out
}

/// The command name of a request made of tokens `t`: the first token in
/// uppercase, or empty when there is none.
pub open spec fn request_name(t: Seq<Seq<char>>) -> Seq<char> {
    if t.len() == 0 {
        Seq::empty()
    } else {
        upper_text(t[0])
    }
}

/// The arguments of a request made of tokens `t`: every token after the first.
pub open spec fn request_args(t: Seq<Seq<char>>) -> Seq<Seq<char>> {
    if t.len() == 0 {
        Seq::empty()
    } else {
        t.drop_first()
    }
}

/// Splits a decoded request line into its command name and arguments.
pub fn split_request(text: &str) -> (r: (String, Vec<String>))
    ensures
        r.0@ == request_name(tokens(text@)),
        views(r.1@) == request_args(tokens(text@)),
{
    let mut parts = tokenize(text);
    if parts.len() == 0 {
        (String::new(), parts)
    } else {
        let ghost all = views(parts@);
        let first = parts.remove(0);
        let command = uppercase(first.as_str());
        assert(views(parts@) =~= all.drop_first());
        (command, parts)
    }
}

/// Parses one request: the bytes are decoded, invalid sequences replaced,
/// and split as `split_request` does.
pub fn parse_request(buffer: &[u8]) -> (r: (String, Vec<String>))
    ensures
        r.0@ == request_name(tokens(lossy_text(buffer@))),
        views(r.1@) == request_args(tokens(lossy_text(buffer@))),
{
    let text = decode_lossy(buffer);
    split_request(text.as_str())
}

} // verus!
