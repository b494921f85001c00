//! Client identity resolution: who a request is charged to. The forwarding
//! header's first entry wins, then the peer address, then a sentinel. The
//! header is deliberately trusted as given (see `resolve_identity`).

use vstd::prelude::*;
use vstd::string::StrSliceExecFns;

verus! {

/// The Unicode White_Space code points — the set that `str::trim` and
/// `char::is_whitespace` go by: the six ASCII whitespace characters, next
/// line, no-break space, the Ogham space mark, the typographic spaces
/// U+2000 through U+200A, the line and paragraph separators, the narrow
/// no-break space, the medium mathematical space, and the ideographic space.
pub open spec fn is_white(c: char) -> bool {
    let u = c as u32;
    ||| u == 0x20
    ||| 0x09 <= u <= 0x0D
    ||| u == 0x85
    ||| u == 0xA0
    ||| u == 0x1680
    ||| 0x2000 <= u <= 0x200A
    ||| u == 0x2028
    ||| u == 0x2029
    ||| u == 0x202F
    ||| u == 0x205F
    ||| u == 0x3000
}

/// Whether the character is Unicode whitespace.
fn char_is_white(c: char) -> (r: bool)
    ensures
        r == is_white(c),
{
    let u = c as u32;
    u == 0x20 || (0x09 <= u && u <= 0x0D) || u == 0x85 || u == 0xA0 || u == 0x1680 || (0x2000 <= u
        && u <= 0x200A) || u == 0x2028 || u == 0x2029 || u == 0x202F || u == 0x205F || u == 0x3000
}

/// Position of the first comma at or after `i`, or the length when there is
/// none.
pub open spec fn comma_pos_from(s: Seq<char>, i: int) -> int
    decreases s.len() - i,
{
    if i >= s.len() as int {
        s.len() as int
    } else if s[i] == ',' {
        i
    } else {
        comma_pos_from(s, i + 1)
    }
}

/// Position of the first non-whitespace character at or after `i`, or the
/// length when all of the rest is whitespace.
pub open spec fn first_non_white_from(s: Seq<char>, i: int) -> int
    decreases s.len() - i,
{
    if i >= s.len() as int {
        s.len() as int
    } else if !is_white(s[i]) {
        i
    } else {
        first_non_white_from(s, i + 1)
    }
}

/// One past the position of the last non-whitespace character strictly below
/// `i`, or zero when there is none.
pub open spec fn last_non_white_before(s: Seq<char>, i: int) -> int
    decreases i,
{
    if i <= 0 {
        0
    } else if !is_white(s[i - 1]) {
        i
    } else {
        last_non_white_before(s, i - 1)
    }
}

/// What trimming yields: the characters between the first and the last
/// non-whitespace one, and the empty sequence when there are none.
pub open spec fn trim_spec(s: Seq<char>) -> Seq<char> {
    let lo = first_non_white_from(s, 0);
    let hi = last_non_white_before(s, s.len() as int);
    if lo >= s.len() as int {
        Seq::empty()
    } else {
        s.subrange(lo, hi)
    }
}

/// Removes leading and trailing whitespace.
pub fn trim_str(s: &str) -> (r: String)
    ensures
        r@ == trim_spec(s@),
{
    let n = s.unicode_len();
    let mut lo: usize = 0;
    while lo < n && char_is_white(s.get_char(lo))
        invariant
            lo <= n,
            n == s@.len(),
            first_non_white_from(s@, 0) == first_non_white_from(s@, lo as int),
        decreases n - lo,
    {
        assert(first_non_white_from(s@, lo as int) == first_non_white_from(s@, lo as int + 1));
        lo = lo + 1;
    }
    if lo == n {
        return String::new();
    }
    assert(first_non_white_from(s@, 0) == lo);
    let mut hi: usize = n;
    while char_is_white(s.get_char(hi - 1))
        invariant
            lo < hi <= n,
            n == s@.len(),
            !is_white(s@[lo as int]),
            last_non_white_before(s@, n as int) == last_non_white_before(s@, hi as int),
        decreases hi,
    {
        assert(last_non_white_before(s@, hi as int) == last_non_white_before(s@, hi as int - 1));
        hi = hi - 1;
    }
    assert(last_non_white_before(s@, n as int) == hi);
    s.substring_char(lo, hi).to_owned()
}

/// The first comma-separated token of a header value; the whole value when it
/// holds no comma.
pub fn first_comma_token<'a>(s: &'a str) -> (r: &'a str)
    ensures
        r@ == s@.take(comma_pos_from(s@, 0)),
{
    let n = s.unicode_len();
    let mut i: usize = 0;
    while i < n && s.get_char(i) != ','
        invariant
            i <= n,
            n == s@.len(),
            comma_pos_from(s@, 0) == comma_pos_from(s@, i as int),
        decreases n - i,
    {
        assert(comma_pos_from(s@, i as int) == comma_pos_from(s@, i as int + 1));
        i = i + 1;
    }
    assert(comma_pos_from(s@, 0) == i);
    s.substring_char(0, i)
}

/// What the resolver answers, given the forwarding header (if one was
/// readable) and the peer address (if one was known).
pub open spec fn identity_spec(forwarded: Option<Seq<char>>, peer: Option<Seq<char>>) -> Seq<
    char,
> {
    match forwarded {
        Some(h) => trim_spec(h.take(comma_pos_from(h, 0))),
        None => match peer {
            Some(p) => p,
            None => "unknown"@,
        },
    }
}

/// Derives the client identity from connection metadata: the first
/// comma-separated entry of the forwarding header, trimmed; failing a header,
/// the peer address; failing both, the sentinel "unknown".
///
/// The header is trusted as given, so a client not behind a trusted reverse
/// proxy can choose its own identity; that behavior is kept deliberately.
pub fn resolve_identity(forwarded: Option<&str>, peer: Option<&str>) -> (r: String)
    ensures
        r@ == identity_spec(forwarded.deep_view(), peer.deep_view()),
{
    match forwarded {
        Some(h) => trim_str(first_comma_token(h)),
        None => match peer {
            Some(p) => p.to_owned(),
            None => "unknown".to_owned(),
        },
    }
}

} // verus!
