//! Character classes and string building used by the parser and renderer.

use vstd::prelude::*;

verus! {

/// `String::push` appends one character.
pub assume_specification[ String::push ](s: &mut String, ch: char)
    ensures
        final(s)@ == old(s)@.push(ch),
;

/// Unicode `White_Space`, the class that `char::is_whitespace` and
/// `str::trim` use.
pub open spec fn is_white_space(c: char) -> bool {
    let u = c as u32;
    ||| 0x09 <= u <= 0x0D
    ||| u == 0x20
    ||| u == 0x85
    ||| u == 0xA0
    ||| u == 0x1680
    ||| 0x2000 <= u <= 0x200A
    ||| u == 0x2028
    ||| u == 0x2029
    ||| u == 0x202F
    ||| u == 0x205F
    ||| u == 0x3000
}

/// Whether `c` is Unicode white space.
pub fn is_whitespace(c: char) -> (b: bool)
    ensures
        b == is_white_space(c),
{
    let u = c as u32;
    (0x09 <= u && u <= 0x0D) || u == 0x20 || u == 0x85 || u == 0xA0 || u == 0x1680 || (0x2000
        <= u && u <= 0x200A) || u == 0x2028 || u == 0x2029 || u == 0x202F || u == 0x205F || u
        == 0x3000
}

/// Unicode general category `Cc`, the class that `char::is_control` tests.
pub open spec fn is_control_char(c: char) -> bool {
    let u = c as u32;
    u <= 0x1F || (0x7F <= u && u <= 0x9F)
}

/// Whether `c` is a control character.
pub fn is_control(c: char) -> (b: bool)
    ensures
        b == is_control_char(c),
{
    let u = c as u32;
    u <= 0x1F || (0x7F <= u && u <= 0x9F)
}

/// The decimal digits of `n`, most significant first, with no leading zero.
pub open spec fn decimal(n: nat) -> Seq<char>
    decreases n,
{
    if n < 10 {
        seq![digit_char(n)]
    } else {
        decimal(n / 10).push(digit_char(n % 10))
    }
}

/// The ASCII digit for `d < 10`.
pub open spec fn digit_char(d: nat) -> char {
    ((d + 0x30) as u32) as char
}

/// Append the decimal digits of `n` to `s`.
pub fn push_decimal(s: &mut String, n: u64)
    ensures
        final(s)@ == old(s)@ + decimal(n as nat),
    decreases n,
{
    if n >= 10 {
        push_decimal(s, n / 10);
    }
    let c = ((n % 10) as u8 + 0x30u8) as char;
    s.push(c);
    assert(s@ == old(s)@ + decimal(n as nat));
}

/// A `String` holding the characters of `s`.
pub fn string_of(s: &str) -> (res: String)
    ensures
        res@ == s@,
{
    s.to_owned()
}

/// Append the characters of `t` to `s`.
pub fn push_str(s: &mut String, t: &str)
    ensures
        final(s)@ == old(s)@ + t@,
{
    s.append(t);
}

/// The characters of `s`, in order.
pub fn chars_of(s: &str) -> (res: Vec<char>)
    ensures
        res@ == s@,
{
    let mut res: Vec<char> = Vec::new();
    broadcast use vstd::string::group_string_axioms;

    for c in it: s.chars()
        invariant
            res@ == it.seq().subrange(0, it.index() as int),
            it.seq() == s@,
    {
        res.push(c);
    }
    res
}

/// How many characters at the front of `s` are (when `ws`) or are not
/// (when `!ws`) white space.
pub open spec fn lead_count(s: Seq<char>, ws: bool) -> nat
    decreases s.len(),
{
    if s.len() > 0 && is_white_space(s[0]) == ws {
        1 + lead_count(s.drop_first(), ws)
    } else {
        0
    }
}

/// How many characters at the end of `s` are white space.
pub open spec fn trail_ws(s: Seq<char>) -> nat
    decreases s.len(),
{
    if s.len() > 0 && is_white_space(s.last()) {
        1 + trail_ws(s.drop_last())
    } else {
        0
    }
}

/// `s` without its leading and trailing white space, as `str::trim` gives.
pub open spec fn trim(s: Seq<char>) -> Seq<char> {
    let t = s.skip(lead_count(s, true) as int);
    t.take(t.len() - trail_ws(t))
}

/// A run that ends where the class changes has the length `lead_count` gives.
pub proof fn lemma_lead_count(s: Seq<char>, ws: bool, i: int)
    requires
        0 <= i <= s.len(),
        forall|j: int| 0 <= j < i ==> is_white_space(#[trigger] s[j]) == ws,
        i == s.len() || is_white_space(s[i]) != ws,
    ensures
        lead_count(s, ws) == i,
    decreases i,
{
    if i > 0 {
        assert forall|j: int| 0 <= j < i - 1 implies is_white_space(#[trigger] s.drop_first()[j])
            == ws by {
            assert(s.drop_first()[j] == s[j + 1]);
        }
        lemma_lead_count(s.drop_first(), ws, i - 1);
    }
}

/// `lead_count` never runs past the end, and stops at a change of class.
pub proof fn lemma_lead_count_bounds(s: Seq<char>, ws: bool)
    ensures
        lead_count(s, ws) <= s.len(),
        forall|j: int| 0 <= j < lead_count(s, ws) ==> is_white_space(#[trigger] s[j]) == ws,
        lead_count(s, ws) < s.len() ==> is_white_space(s[lead_count(s, ws) as int]) != ws,
    decreases s.len(),
{
    if s.len() > 0 && is_white_space(s[0]) == ws {
        lemma_lead_count_bounds(s.drop_first(), ws);
        assert forall|j: int| 0 <= j < lead_count(s, ws) implies is_white_space(#[trigger] s[j])
            == ws by {
            if j > 0 {
                assert(s[j] == s.drop_first()[j - 1]);
            }
        }
    }
}

/// A trailing run that starts where the class changes has the length
/// `trail_ws` gives.
pub proof fn lemma_trail_ws(s: Seq<char>, k: int)
    requires
        0 <= k <= s.len(),
        forall|j: int| s.len() - k <= j < s.len() ==> is_white_space(#[trigger] s[j]),
        k == s.len() || !is_white_space(s[s.len() - k - 1]),
    ensures
        trail_ws(s) == k,
    decreases k,
{
    if k > 0 {
        assert forall|j: int| s.drop_last().len() - (k - 1) <= j < s.drop_last().len()
            implies is_white_space(#[trigger] s.drop_last()[j]) by {
            assert(s.drop_last()[j] == s[j]);
        }
        lemma_trail_ws(s.drop_last(), k - 1);
    }
}

/// `trail_ws` never runs past the start, and stops at a non-space.
pub proof fn lemma_trail_ws_bounds(s: Seq<char>)
    ensures
        trail_ws(s) <= s.len(),
        forall|j: int| s.len() - trail_ws(s) <= j < s.len() ==> is_white_space(#[trigger] s[j]),
        trail_ws(s) < s.len() ==> !is_white_space(s[s.len() - trail_ws(s) - 1]),
    decreases s.len(),
{
    if s.len() > 0 && is_white_space(s.last()) {
        lemma_trail_ws_bounds(s.drop_last());
        assert forall|j: int| s.len() - trail_ws(s) <= j < s.len() implies is_white_space(
            #[trigger] s[j],
        ) by {
            if j < s.len() - 1 {
                assert(s[j] == s.drop_last()[j]);
            }
        }
    }
}

/// Text with a character that is not white space does not trim to nothing.
pub proof fn lemma_trim_nonempty(s: Seq<char>, i: int)
    requires
        0 <= i < s.len(),
        !is_white_space(s[i]),
    ensures
        trim(s).len() > 0,
{
    let a = lead_count(s, true);
    lemma_lead_count_bounds(s, true);
    if a > i {
        assert(is_white_space(s[i]));
    }
    let t = s.skip(a as int);
    lemma_trail_ws_bounds(t);
    assert(t[i - a] == s[i]);
    if t.len() - trail_ws(t) <= i - a {
        assert(is_white_space(t[i - a]));
    }
}

/// The bounds `[start, end)` of `trim(v[lo..hi])` inside `v`.
pub fn trim_bounds(v: &Vec<char>, lo: usize, hi: usize) -> (r: (usize, usize))
    requires
        lo <= hi <= v@.len(),
    ensures
        lo <= r.0 <= r.1 <= hi,
        v@.subrange(r.0 as int, r.1 as int) == trim(v@.subrange(lo as int, hi as int)),
        r.0 < r.1 ==> !is_white_space(v@[r.0 as int]) && !is_white_space(v@[r.1 - 1]),
{
    let ghost s = v@.subrange(lo as int, hi as int);
    let mut a = lo;
    while a < hi && is_whitespace(v[a])
        invariant
            lo <= a <= hi <= v@.len(),
            forall|j: int| lo <= j < a ==> is_white_space(#[trigger] v@[j]),
        decreases hi - a,
    {
        a = a + 1;
    }
    proof {
        assert forall|j: int| 0 <= j < a - lo implies is_white_space(#[trigger] s[j]) by {
            assert(s[j] == v@[lo + j]);
        }
        lemma_lead_count(s, true, a - lo);
    }
    let ghost t = s.skip(a - lo);
    assert(t =~= v@.subrange(a as int, hi as int));
    let mut b = hi;
    while b > a && is_whitespace(v[b - 1])
        invariant
            lo <= a <= b <= hi <= v@.len(),
            forall|j: int| b <= j < hi ==> is_white_space(#[trigger] v@[j]),
        decreases b - a,
    {
        b = b - 1;
    }
    proof {
        assert forall|j: int| t.len() - (hi - b) <= j < t.len() implies is_white_space(
            #[trigger] t[j],
        ) by {
            assert(t[j] == v@[a + j]);
        }
        if b > a {
            assert(t[t.len() - (hi - b) - 1] == v@[b - 1]);
        }
        lemma_trail_ws(t, hi - b);
        assert(t.take(t.len() - trail_ws(t)) =~= v@.subrange(a as int, b as int));
    }
    (a, b)
}

/// A `String` holding `v[lo..hi]`.
pub fn string_from_range(v: &Vec<char>, lo: usize, hi: usize) -> (res: String)
    requires
        lo <= hi <= v@.len(),
    ensures
        res@ == v@.subrange(lo as int, hi as int),
{
    let mut res = String::new();
    let mut i: usize = lo;
    while i < hi
        invariant
            lo <= i <= hi <= v@.len(),
            res@ == v@.subrange(lo as int, i as int),
        decreases hi - i,
    {
        res.push(v[i]);
        i = i + 1;
        assert(res@ =~= v@.subrange(lo as int, i as int));
    }
    res
}

/// Whether `v[lo..hi]` spells exactly the characters of `lit`.
pub fn range_equals(v: &Vec<char>, lo: usize, hi: usize, lit: &str) -> (b: bool)
    requires
        lo <= hi <= v@.len(),
    ensures
        b == (v@.subrange(lo as int, hi as int) == lit@),
{
    let w = chars_of(lit);
    if hi - lo != w.len() {
        assert(v@.subrange(lo as int, hi as int).len() != lit@.len());
        return false;
    }
    let mut i: usize = 0;
    while i < w.len()
        invariant
            lo <= hi <= v@.len(),
            hi - lo == w@.len(),
            w@ == lit@,
            i <= w@.len(),
            forall|j: int| 0 <= j < i ==> v@[lo + j] == w@[j],
        decreases w@.len() - i,
    {
        if v[lo + i] != w[i] {
            assert(v@.subrange(lo as int, hi as int)[i as int] != lit@[i as int]);
            return false;
        }
        i = i + 1;
    }
    assert(v@.subrange(lo as int, hi as int) =~= lit@);
    true
}

} // verus!
