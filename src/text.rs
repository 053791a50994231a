//! Text helpers: blank detection, case folding, decimal rendering and shell quoting.

use vstd::prelude::*;
use vstd::string::StrSliceExecFns;

verus! {

/// The Unicode `White_Space` property.
pub open spec fn is_white_space(c: char) -> bool {
    let n = c as u32;
    (0x9 <= n <= 0xd) || n == 0x20 || n == 0x85 || n == 0xa0 || n == 0x1680 || (0x2000 <= n
        <= 0x200a) || n == 0x2028 || n == 0x2029 || n == 0x202f || n == 0x205f || n == 0x3000
}

/// Every character of `s` is white space (the empty sequence included).
pub open spec fn is_blank_seq(s: Seq<char>) -> bool {
    forall|i: int| 0 <= i < s.len() ==> is_white_space(#[trigger] s[i])
}

/// `r` is `s[a..b]`, and `a`, `b` cut off exactly the white space at the two ends.
pub open spec fn trim_bounds(s: Seq<char>, r: Seq<char>, a: int, b: int) -> bool {
    &&& 0 <= a <= b <= s.len()
    &&& r == s.subrange(a, b)
    &&& is_blank_seq(s.subrange(0, a))
    &&& is_blank_seq(s.subrange(b, s.len() as int))
    &&& a < b ==> !is_white_space(s[a]) && !is_white_space(s[b - 1])
}

/// `r` is `s` with its leading and trailing white space removed.
pub open spec fn is_trim_of(s: Seq<char>, r: Seq<char>) -> bool {
    exists|a: int, b: int| #[trigger] trim_bounds(s, r, a, b)
}

/// Relies on `str::trim`: removes leading and trailing characters that have
/// the Unicode `White_Space` property, and nothing else.
#[verifier::external_body]
fn trim_str(s: &str) -> (r: &str)
    ensures
        is_trim_of(s@, r@),
{
    s.trim()
}

/// Whether `s` holds nothing but white space.
pub fn is_blank(s: &str) -> (r: bool)
    ensures
        r == is_blank_seq(s@),
{
    let t = trim_str(s);
    let r = t.is_empty();
    proof {
        let (a, b) = choose|a: int, b: int| #[trigger] trim_bounds(s@, t@, a, b);
        if r {
            assert(t@.len() == 0);
            assert forall|i: int| 0 <= i < s@.len() implies is_white_space(#[trigger] s@[i]) by {
                if i < a {
                    assert(s@.subrange(0, a)[i] == s@[i]);
                } else {
                    assert(s@.subrange(b, s@.len() as int)[i - b] == s@[i]);
                }
            }
        } else {
            assert(t@.len() > 0);
            assert(!is_white_space(s@[a]));
        }
    }
    r
}

/// What `str::to_lowercase` returns for the given characters.
pub uninterp spec fn lower_of(s: Seq<char>) -> Seq<char>;

/// Relies on `str::to_lowercase`: the result depends on the characters alone.
#[verifier::external_body]
fn to_lower(s: &str) -> (r: String)
    ensures
        r@ == lower_of(s@),
{
    s.to_lowercase()
}

/// The word a running virtual machine reports as its state, in lower case.
pub open spec fn running_word() -> Seq<char> {
    seq!['r', 'u', 'n', 'n', 'i', 'n', 'g']
}

/// Whether an already lower-cased state names a running machine.
pub fn is_running_lowered(lowered: &String) -> (r: bool)
    ensures
        r == (lowered@ == running_word()),
{
    let word = String::from_str("running");
    proof {
        reveal_strlit("running");
        assert(word@ =~= running_word());
    }
    *lowered == word
}

/// Whether a machine's lifecycle state reads "running", compared without regard to case.
pub fn is_running_state(state: &String) -> (r: bool)
    ensures
        r == (lower_of(state@) == running_word()),
{
    let lowered = to_lower(state.as_str());
    is_running_lowered(&lowered)
}

/// The decimal digit character for `d < 10`.
pub open spec fn digit_char(d: nat) -> char {
    if d == 0 { '0' }
    else if d == 1 { '1' }
    else if d == 2 { '2' }
    else if d == 3 { '3' }
    else if d == 4 { '4' }
    else if d == 5 { '5' }
    else if d == 6 { '6' }
    else if d == 7 { '7' }
    else if d == 8 { '8' }
    else { '9' }
}

/// The decimal representation of `n`, without leading zeros.
pub open spec fn decimal(n: nat) -> Seq<char>
    decreases n,
{
    if n < 10 {
        seq![digit_char(n)]
    } else {
        decimal(n / 10).push(digit_char(n % 10))
    }
}

fn digit_str(d: u64) -> (r: &'static str)
    requires
        d < 10,
    ensures
        r@ == seq![digit_char(d as nat)],
{
    proof {
        reveal_strlit("0");
        reveal_strlit("1");
        reveal_strlit("2");
        reveal_strlit("3");
        reveal_strlit("4");
        reveal_strlit("5");
        reveal_strlit("6");
        reveal_strlit("7");
        reveal_strlit("8");
        reveal_strlit("9");
    }
    let r = if d == 0 { "0" }
    else if d == 1 { "1" }
    else if d == 2 { "2" }
    else if d == 3 { "3" }
    else if d == 4 { "4" }
    else if d == 5 { "5" }
    else if d == 6 { "6" }
    else if d == 7 { "7" }
    else if d == 8 { "8" }
    else { "9" };
    assert(r@ =~= seq![digit_char(d as nat)]);
    r
}

/// Renders `n` in decimal.
pub fn decimal_string(n: u64) -> (r: String)
    ensures
        r@ == decimal(n as nat),
    decreases n,
{
    if n < 10 {
        String::from_str(digit_str(n))
    } else {
        let mut s = decimal_string(n / 10);
        s.append(digit_str(n % 10));
        proof {
            assert(s@ =~= decimal(n as nat));
        }
        s
    }
}

/// How one character stands inside single quotes: a quote closes the quoting,
/// is escaped, and reopens it.
pub open spec fn quote_char(c: char) -> Seq<char> {
    if c == '\'' {
        seq!['\'', '\\', '\'', '\'']
    } else {
        seq![c]
    }
}

pub open spec fn quote_body(s: Seq<char>) -> Seq<char>
    decreases s.len(),
{
    if s.len() == 0 {
        Seq::empty()
    } else {
        quote_body(s.drop_last()) + quote_char(s.last())
    }
}

/// `s` as one word of a POSIX shell command line.
pub open spec fn shell_quoted(s: Seq<char>) -> Seq<char> {
    seq!['\''] + quote_body(s) + seq!['\'']
}

/// Quotes `s` so that a POSIX shell reads it back as exactly one word, unchanged.
pub fn shell_quote(s: &str) -> (r: String)
    ensures
        r@ == shell_quoted(s@),
{
    proof {
        reveal_strlit("'");
        reveal_strlit("'\\''");
    }
    let mut out = String::from_str("'");
    let n = s.unicode_len();
    let mut i: usize = 0;
    while i < n
        invariant
            i <= n,
            n == s@.len(),
            out@ == seq!['\''] + quote_body(s@.subrange(0, i as int)),
        decreases n - i,
    {
        let c = s.get_char(i);
        if c == '\'' {
            out.append("'\\''");
            proof {
                reveal_strlit("'\\''");
                assert("'\\''"@.len() == 4);
                assert("'\\''"@[1] == '\\');
                assert("'\\''"@ =~= quote_char(c));
            }
        } else {
            out.append(s.substring_char(i, i + 1));
            assert(s@.subrange(i as int, i + 1) =~= quote_char(c));
        }
        proof {
            let sub = s@.subrange(0, i + 1);
            assert(quote_body(sub) == quote_body(sub.drop_last()) + quote_char(sub.last()));
            assert(s@.subrange(0, i + 1).drop_last() =~= s@.subrange(0, i as int));
            assert(s@.subrange(0, i + 1).last() == c);
            assert(s@.subrange(i as int, i + 1) =~= seq![c]);
            assert(out@ =~= seq!['\''] + quote_body(s@.subrange(0, i + 1)));
        }
        i = i + 1;
    }
    out.append("'");
    proof {
        assert(s@.subrange(0, n as int) =~= s@);
    }
    out
}

} // verus!
