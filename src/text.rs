//! Character-level helpers: views of strings as character sequences,
//! separators, and decimal numbers.

use vstd::prelude::*;

verus! {

/// Index of the last occurrence of `c` in `s`, or -1 when there is none.
pub open spec fn last_index_of(s: Seq<char>, c: char) -> int
    decreases s.len(),
{
    if s.len() == 0 {
        -1
    } else if s.last() == c {
        s.len() - 1
    } else {
        last_index_of(s.drop_last(), c)
    }
}

/// Index of the first occurrence of `c` in `s`, or -1 when there is none.
pub open spec fn first_index_of(s: Seq<char>, c: char) -> int
    decreases s.len(),
{
    if s.len() == 0 {
        -1
    } else if s[0] == c {
        0
    } else {
        let rest = first_index_of(s.drop_first(), c);
        if rest < 0 {
            -1
        } else {
            rest + 1
        }
    }
}

/// What follows the last `c` in `s` (all of `s` when it holds no `c`).
pub open spec fn after_last(s: Seq<char>, c: char) -> Seq<char> {
    s.subrange(last_index_of(s, c) + 1, s.len() as int)
}

pub open spec fn starts_with(s: Seq<char>, prefix: Seq<char>) -> bool {
    prefix.len() <= s.len() && s.subrange(0, prefix.len() as int) == prefix
}

pub open spec fn is_digit(c: char) -> bool {
    '0' <= c && c <= '9'
}

pub open spec fn digit_value(c: char) -> nat {
    (c as int - '0' as int) as nat
}

pub open spec fn all_digits(s: Seq<char>) -> bool {
    forall|i: int| 0 <= i < s.len() ==> is_digit(#[trigger] s[i])
}

/// The number that a string of decimal digits denotes.
pub open spec fn decimal_value(s: Seq<char>) -> nat
    decreases s.len(),
{
    if s.len() == 0 {
        0
    } else {
        decimal_value(s.drop_last()) * 10 + digit_value(s.last())
    }
}

/// The digits of an unsigned decimal, after an optional leading `+`.
pub open spec fn unsigned_digits(s: Seq<char>) -> Seq<char> {
    if s.len() > 0 && s[0] == '+' {
        s.drop_first()
    } else {
        s
    }
}

/// How an unsigned 64-bit integer is read from text: an optional `+`, then
/// one or more decimal digits, denoting a value that fits in 64 bits.
pub open spec fn parse_u64_spec(s: Seq<char>) -> Option<u64> {
    let d = unsigned_digits(s);
    if d.len() > 0 && all_digits(d) && decimal_value(d) <= u64::MAX {
        Some(decimal_value(d) as u64)
    } else {
        None
    }
}

/// The character of the decimal digit `d`.
pub open spec fn digit_char(d: nat) -> char {
    seq!['0', '1', '2', '3', '4', '5', '6', '7', '8', '9'][d as int]
}

/// The decimal notation of `n`, without leading zeros.
pub open spec fn decimal_text(n: nat) -> Seq<char>
    decreases n,
{
    if n < 10 {
        seq![digit_char(n)]
    } else {
        decimal_text(n / 10).push(digit_char(n % 10))
    }
}

proof fn lemma_last_index_of(s: Seq<char>, c: char, k: int)
    requires
        -1 <= k < s.len(),
        k >= 0 ==> s[k] == c,
        forall|j: int| k < j < s.len() ==> s[j] != c,
    ensures
        last_index_of(s, c) == k,
    decreases s.len(),
{
    if s.len() > 0 && s.last() != c {
        lemma_last_index_of(s.drop_last(), c, k);
    }
}

proof fn lemma_first_index_of(s: Seq<char>, c: char, k: int)
    requires
        k == -1 || (0 <= k < s.len() && s[k] == c),
        forall|j: int| 0 <= j < s.len() && (k == -1 || j < k) ==> s[j] != c,
    ensures
        first_index_of(s, c) == k,
    decreases s.len(),
{
    if s.len() > 0 && s[0] != c {
        let t = s.drop_first();
        let k2 = if k == -1 { -1 } else { k - 1 };
        assert forall|j: int| 0 <= j < t.len() && (k2 == -1 || j < k2) implies t[j] != c by {
            assert(t[j] == s[j + 1]);
        }
        lemma_first_index_of(t, c, k2);
    }
}

proof fn lemma_decimal_grows(s: Seq<char>, i: int, j: int)
    requires
        0 <= i <= j <= s.len(),
    ensures
        decimal_value(s.subrange(0, i)) <= decimal_value(s.subrange(0, j)),
    decreases j - i,
{
    if i < j {
        lemma_decimal_grows(s, i, j - 1);
        assert(s.subrange(0, j).drop_last() == s.subrange(0, j - 1));
    }
}

/// The characters of `s`, in order.
pub fn chars_of(s: &str) -> (r: Vec<char>)
    ensures
        r@ == s@,
{
    let n = s.unicode_len();
    let mut v: Vec<char> = Vec::new();
    let mut i: usize = 0;
    while i < n
        invariant
            n == s@.len(),
            i <= n,
            v@ == s@.subrange(0, i as int),
        decreases n - i,
    {
        v.push(s.get_char(i));
        i = i + 1;
        assert(v@ == s@.subrange(0, i as int));
    }
    v
}

/// Position of the last `c` in `s`, if any.
pub fn find_last(s: &Vec<char>, c: char) -> (r: Option<usize>)
    ensures
        match r {
            Some(k) => k < s.len() && k as int == last_index_of(s@, c),
            None => last_index_of(s@, c) == -1,
        },
{
    let mut i: usize = s.len();
    while i > 0
        invariant
            i <= s.len(),
            forall|j: int| i <= j < s.len() ==> s@[j] != c,
        decreases i,
    {
        if s[i - 1] == c {
            proof {
                lemma_last_index_of(s@, c, i - 1);
            }
            return Some(i - 1);
        }
        i = i - 1;
    }
    proof {
        lemma_last_index_of(s@, c, -1);
    }
    None
}

/// Position of the first `c` in `s` at or after `from`, if any.
pub fn find_first_from(s: &Vec<char>, c: char, from: usize) -> (r: Option<usize>)
    requires
        from <= s.len(),
    ensures
        match r {
            Some(k) => from <= k < s.len() && k as int - from == first_index_of(s@.subrange(from as int, s.len() as int), c),
            None => first_index_of(s@.subrange(from as int, s.len() as int), c) == -1,
        },
{
    let ghost t = s@.subrange(from as int, s.len() as int);
    let mut i: usize = from;
    while i < s.len()
        invariant
            from <= i <= s.len(),
            t == s@.subrange(from as int, s.len() as int),
            forall|j: int| from <= j < i ==> s@[j] != c,
        decreases s.len() - i,
    {
        if s[i] == c {
            proof {
                assert forall|j: int| 0 <= j < t.len() && j < i - from implies t[j] != c by {
                    assert(t[j] == s@[j + from]);
                }
                lemma_first_index_of(t, c, i - from);
            }
            return Some(i);
        }
        i = i + 1;
    }
    proof {
        assert forall|j: int| 0 <= j < t.len() implies t[j] != c by {
            assert(t[j] == s@[j + from]);
        }
        lemma_first_index_of(t, c, -1);
    }
    None
}

/// The characters of `s` from `from` up to `to`, as a string.
pub fn slice_string(s: &str, from: usize, to: usize) -> (r: String)
    requires
        from <= to <= s@.len(),
    ensures
        r@ == s@.subrange(from as int, to as int),
{
    s.substring_char(from, to).to_owned()
}

/// Whether `s` begins with `prefix`.
pub fn has_prefix(s: &Vec<char>, prefix: &Vec<char>) -> (r: bool)
    ensures
        r == starts_with(s@, prefix@),
{
    if prefix.len() > s.len() {
        return false;
    }
    let mut i: usize = 0;
    while i < prefix.len()
        invariant
            prefix.len() <= s.len(),
            i <= prefix.len(),
            forall|j: int| 0 <= j < i ==> s@[j] == prefix@[j],
        decreases prefix.len() - i,
    {
        if s[i] != prefix[i] {
            assert(s@.subrange(0, prefix.len() as int)[i as int] != prefix@[i as int]);
            return false;
        }
        i = i + 1;
    }
    assert(s@.subrange(0, prefix.len() as int) == prefix@);
    true
}

fn digit_str(d: u64) -> (r: &'static str)
    requires
        d < 10,
    ensures
        r@ == seq![digit_char(d as nat)],
{
    let digits = "0123456789";
    proof {
        reveal_strlit("0123456789");
        assert(digits@ == seq!['0', '1', '2', '3', '4', '5', '6', '7', '8', '9']);
    }
    let r = digits.substring_char(d as usize, (d + 1) as usize);
    assert(r@ =~= seq![digit_char(d as nat)]);
    r
}

/// The decimal notation of `n`.
pub fn decimal_string(n: u64) -> (r: String)
    ensures
        r@ == decimal_text(n as nat),
    decreases n,
{
    if n < 10 {
        digit_str(n).to_owned()
    } else {
        let mut s = decimal_string(n / 10);
        s.append(digit_str(n % 10));
        s
    }
}

/// Whether `a` and `b` hold the same characters.
pub fn same_chars(a: &Vec<char>, b: &Vec<char>) -> (r: bool)
    ensures
        r == (a@ == b@),
{
    if a.len() != b.len() {
        return false;
    }
    let r = has_prefix(a, b);
    assert(a@.subrange(0, b.len() as int) =~= a@);
    r
}

/// Whether `p` occurs in `s`.
pub open spec fn contains_spec(s: Seq<char>, p: Seq<char>) -> bool {
    exists|i: int| 0 <= i && i + p.len() <= s.len() && #[trigger] s.subrange(i, i + p.len()) == p
}

fn matches_at(s: &Vec<char>, p: &Vec<char>, at: usize) -> (r: bool)
    requires
        at + p.len() <= s.len(),
    ensures
        r == (s@.subrange(at as int, at + p.len()) == p@),
{
    let mut j: usize = 0;
    while j < p.len()
        invariant
            at + p.len() <= s.len(),
            j <= p.len(),
            forall|q: int| 0 <= q < j ==> s@[at + q] == p@[q],
        decreases p.len() - j,
    {
        if s[at + j] != p[j] {
            assert(s@.subrange(at as int, at + p.len())[j as int] != p@[j as int]);
            return false;
        }
        j = j + 1;
    }
    assert(s@.subrange(at as int, at + p.len()) =~= p@);
    true
}

/// Whether `pattern` occurs in `s`.
pub fn contains(s: &str, pattern: &str) -> (r: bool)
    ensures
        r == contains_spec(s@, pattern@),
{
    let cs = chars_of(s);
    let ps = chars_of(pattern);
    if ps.len() > cs.len() {
        return false;
    }
    let last = cs.len() - ps.len();
    let mut i: usize = 0;
    loop
        invariant
            cs@ == s@,
            ps@ == pattern@,
            last == cs.len() - ps.len(),
            ps.len() <= cs.len(),
            i <= last,
            forall|k: int| 0 <= k < i ==> #[trigger] s@.subrange(k, k + pattern@.len()) != pattern@,
        decreases last - i,
    {
        if matches_at(&cs, &ps, i) {
            return true;
        }
        if i == last {
            return false;
        }
        i = i + 1;
    }
}

/// Reads an unsigned 64-bit integer the way the standard library does.
pub fn parse_u64(s: &str) -> (r: Option<u64>)
    ensures
        r == parse_u64_spec(s@),
{
    let cs = chars_of(s);
    let ghost d = unsigned_digits(s@);
    let start: usize = if cs.len() > 0 && cs[0] == '+' { 1 } else { 0 };
    assert(d == cs@.subrange(start as int, cs.len() as int));
    if start >= cs.len() {
        return None;
    }
    let mut v: u64 = 0;
    let mut i: usize = start;
    while i < cs.len()
        invariant
            start <= i <= cs.len(),
            cs@ == s@,
            d == unsigned_digits(s@),
            d == cs@.subrange(start as int, cs.len() as int),
            all_digits(cs@.subrange(start as int, i as int)),
            v as nat == decimal_value(cs@.subrange(start as int, i as int)),
        decreases cs.len() - i,
    {
        let c = cs[i];
        if !('0' <= c && c <= '9') {
            assert(d[i - start] == c);
            assert(!is_digit(d[i - start]));
            return None;
        }
        let dv: u64 = (c as u32 - '0' as u32) as u64;
        let ghost pre = cs@.subrange(start as int, i as int);
        let ghost next = cs@.subrange(start as int, i + 1);
        assert(digit_value(c) == dv as nat);
        assert(next.last() == c);
        assert(next.drop_last() == pre);
        assert(decimal_value(next) == decimal_value(pre) * 10 + dv);
        if v > (u64::MAX - dv) / 10 {
            proof {
                assert(v as nat * 10 + dv > u64::MAX) by (nonlinear_arith)
                    requires
                        v > (u64::MAX - dv) / 10,
                        dv <= 9,
                ;
                assert(d.subrange(0, (i + 1 - start) as int) == next);
                assert(d.subrange(0, d.len() as int) == d);
                lemma_decimal_grows(d, (i + 1 - start) as int, d.len() as int);
                assert(decimal_value(d) > u64::MAX);
            }
            return None;
        }
        proof {
            assert(v as nat * 10 + dv <= u64::MAX) by (nonlinear_arith)
                requires
                    v <= (u64::MAX - dv) / 10,
                    dv <= 9,
            ;
            assert forall|j: int| 0 <= j < next.len() implies is_digit(#[trigger] next[j]) by {
                if j < pre.len() {
                    assert(next[j] == pre[j]);
                }
            }
        }
        v = v * 10 + dv;
        i = i + 1;
    }
    Some(v)
}

} // verus!
