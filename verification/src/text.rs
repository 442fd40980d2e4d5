//! Character-level groundwork: the whitespace set, trimming, and the
//! numeric value of a run of ASCII digits.

use vstd::prelude::*;

verus! {

/// ASCII whitespace, the set a line is trimmed by.
pub open spec fn is_jd_ws(c: char) -> bool {
    c == ' ' || c == '\t' || c == '\r' || c == '\n' || c == '\x0C'
}

/// ASCII decimal digit.
pub open spec fn is_digit(c: char) -> bool {
    48 <= c as u32 && c as u32 <= 57
}

/// Numeric value of one digit character; zero off the digit range.
pub open spec fn digit_val(c: char) -> nat {
    if is_digit(c) {
        (c as u32 - 48) as nat
    } else {
        0
    }
}

/// How many leading characters of `s` satisfy `p`.
pub open spec fn lead_count(s: Seq<char>, p: spec_fn(char) -> bool) -> nat
    decreases s.len(),
{
    if s.len() > 0 && p(s[0]) {
        1 + lead_count(s.drop_first(), p)
    } else {
        0
    }
}

/// The length of the run of leading whitespace.
pub open spec fn ws_run(s: Seq<char>) -> nat {
    lead_count(s, |c: char| is_jd_ws(c))
}

/// `s` without its leading whitespace.
pub open spec fn trim_start(s: Seq<char>) -> Seq<char> {
    s.skip(ws_run(s) as int)
}

/// `s` without its trailing whitespace.
pub open spec fn trim_end(s: Seq<char>) -> Seq<char>
    decreases s.len(),
{
    if s.len() > 0 && is_jd_ws(s.last()) {
        trim_end(s.drop_last())
    } else {
        s
    }
}

/// `s` without leading and trailing whitespace.
pub open spec fn trim(s: Seq<char>) -> Seq<char> {
    trim_end(trim_start(s))
}

/// The value of a digit string read in base ten.
pub open spec fn digits_value(s: Seq<char>) -> nat
    decreases s.len(),
{
    if s.len() == 0 {
        0
    } else {
        digits_value(s.drop_last()) * 10 + digit_val(s.last())
    }
}

/// Ten to the `n`.
pub open spec fn pow10(n: nat) -> nat
    decreases n,
{
    if n == 0 {
        1
    } else {
        10 * pow10((n - 1) as nat)
    }
}

/// `lead_count` is exactly the position of the first character that
/// fails `p` (or the length, if none does).
pub proof fn lemma_lead_count(s: Seq<char>, p: spec_fn(char) -> bool, i: int)
    requires
        0 <= i <= s.len(),
        forall|j: int| 0 <= j < i ==> p(s[j]),
        i < s.len() ==> !p(s[i]),
    ensures
        lead_count(s, p) == i,
    decreases i,
{
    if i == 0 {
    } else {
        assert(p(s[0]));
        assert forall|j: int| 0 <= j < i - 1 implies p(s.drop_first()[j]) by {
            assert(s.drop_first()[j] == s[j + 1]);
        }
        if i - 1 < s.drop_first().len() {
            assert(s.drop_first()[i - 1] == s[i]);
        }
        lemma_lead_count(s.drop_first(), p, i - 1);
    }
}

/// A character that fails `p` bounds the leading run.
pub proof fn lemma_lead_count_le(s: Seq<char>, p: spec_fn(char) -> bool, i: int)
    requires
        0 <= i < s.len(),
        !p(s[i]),
    ensures
        lead_count(s, p) <= i,
    decreases i,
{
    if s.len() > 0 && p(s[0]) {
        assert(i != 0);
        assert(s.drop_first()[i - 1] == s[i]);
        lemma_lead_count_le(s.drop_first(), p, i - 1);
    }
}

/// Trimming the end is exactly cutting at the last non-whitespace
/// character.
pub proof fn lemma_trim_end(t: Seq<char>, q: int)
    requires
        0 <= q <= t.len(),
        forall|j: int| q <= j < t.len() ==> is_jd_ws(t[j]),
        q > 0 ==> !is_jd_ws(t[q - 1]),
    ensures
        trim_end(t) == t.take(q),
    decreases t.len() - q,
{
    if q == t.len() {
        assert(t.take(q) =~= t);
    } else {
        assert(is_jd_ws(t.last()));
        assert(t.drop_last() =~= t.take(t.len() - 1));
        assert forall|j: int| q <= j < t.drop_last().len() implies is_jd_ws(t.drop_last()[j]) by {
            assert(t.drop_last()[j] == t[j]);
        }
        lemma_trim_end(t.drop_last(), q);
        assert(t.drop_last().take(q) =~= t.take(q));
    }
}

/// Trimming the end keeps any sequence that holds a non-whitespace
/// character non-empty.
pub proof fn lemma_trim_end_keeps(t: Seq<char>, i: int)
    requires
        0 <= i < t.len(),
        !is_jd_ws(t[i]),
    ensures
        trim_end(t).len() > 0,
    decreases t.len(),
{
    if t.len() > 0 && is_jd_ws(t.last()) {
        assert(i < t.len() - 1);
        assert(t.drop_last()[i] == t[i]);
        lemma_trim_end_keeps(t.drop_last(), i);
    }
}

/// A line with any non-whitespace character does not trim to nothing.
pub proof fn lemma_trim_nonempty(s: Seq<char>, i: int)
    requires
        0 <= i < s.len(),
        !is_jd_ws(s[i]),
    ensures
        trim(s).len() > 0,
{
    let p = |c: char| is_jd_ws(c);
    lemma_lead_count_le(s, p, i);
    let w = ws_run(s) as int;
    assert(trim_start(s)[i - w] == s[i]);
    lemma_trim_end_keeps(trim_start(s), i - w);
}

/// A digit string of length `n` is worth less than ten to the `n`.
pub proof fn lemma_digits_value_bound(s: Seq<char>)
    ensures
        digits_value(s) < pow10(s.len() as nat),
    decreases s.len(),
{
    if s.len() > 0 {
        lemma_digits_value_bound(s.drop_last());
        assert(digit_val(s.last()) <= 9);
    }
}

/// `pow10` is positive.
pub proof fn lemma_pow10_pos(n: nat)
    ensures
        pow10(n) >= 1,
    decreases n,
{
    if n > 0 {
        lemma_pow10_pos((n - 1) as nat);
    }
}

/// `pow10` grows with its exponent.
pub proof fn lemma_pow10_le(j: nat, k: nat)
    requires
        j <= k,
    ensures
        pow10(j) <= pow10(k),
    decreases k - j,
{
    if j < k {
        lemma_pow10_le(j, (k - 1) as nat);
        lemma_pow10_pos((k - 1) as nat);
    }
}

/// Ten to the nineteen still fits a 64-bit word.
pub proof fn lemma_pow10_19()
    ensures
        pow10(19) == 10_000_000_000_000_000_000,
{
    reveal_with_fuel(pow10, 21);
}

/// Whether `c` belongs to the whitespace set lines are trimmed by.
pub fn ws_char(c: char) -> (b: bool)
    ensures
        b == is_jd_ws(c),
{
    c == ' ' || c == '\t' || c == '\r' || c == '\n' || c == '\x0C'
}

/// The trimmed tail of a line: everything from `from` on, with leading
/// and trailing whitespace removed.
pub fn trim_chars(line: &Vec<char>, from: usize) -> (r: Vec<char>)
    requires
        from <= line.len(),
    ensures
        r@ == trim(line@.skip(from as int)),
{
    let ghost s = line@.skip(from as int);
    let mut lo: usize = from;
    while lo < line.len() && ws_char(line[lo])
        invariant
            from <= lo <= line.len(),
            forall|j: int| from <= j < lo ==> is_jd_ws(line@[j]),
        decreases line.len() - lo,
    {
        lo = lo + 1;
    }
    let mut hi: usize = line.len();
    while hi > lo && ws_char(line[hi - 1])
        invariant
            lo <= hi <= line.len(),
            forall|j: int| hi <= j < line.len() ==> is_jd_ws(line@[j]),
        decreases hi,
    {
        hi = hi - 1;
    }
    proof {
        let p = |c: char| is_jd_ws(c);
        assert forall|j: int| 0 <= j < lo - from implies p(s[j]) by {
            assert(s[j] == line@[from + j]);
        }
        if lo - from < s.len() {
            assert(s[lo - from] == line@[lo as int]);
        }
        lemma_lead_count(s, p, lo - from);
        assert(trim_start(s) =~= line@.skip(lo as int));
        let t = line@.skip(lo as int);
        assert forall|j: int| hi - lo <= j < t.len() implies is_jd_ws(t[j]) by {
            assert(t[j] == line@[lo + j]);
        }
        if hi > lo {
            assert(t[hi - lo - 1] == line@[hi - 1]);
        }
        lemma_trim_end(t, hi - lo);
        assert(trim(s) == t.take(hi - lo));
    }
    let mut r: Vec<char> = Vec::new();
    let mut k: usize = lo;
    while k < hi
        invariant
            lo <= k <= hi <= line.len(),
            r@ =~= line@.subrange(lo as int, k as int),
        decreases hi - k,
    {
        r.push(line[k]);
        k = k + 1;
    }
    proof {
        assert(r@ =~= line@.skip(lo as int).take(hi - lo as int));
    }
    r
}

/// Relies on `String::push`: appends the given character to the end of
/// the string.
#[verifier::external_body]
fn push_char(s: &mut String, c: char)
    ensures
        final(s)@ == old(s)@.push(c),
{
    s.push(c);
}

/// An owned string holding exactly the given characters.
pub fn chars_to_string(v: &Vec<char>) -> (r: String)
    ensures
        r@ == v@,
{
    let mut r = String::new();
    let mut i: usize = 0;
    while i < v.len()
        invariant
            i <= v.len(),
            r@ =~= v@.subrange(0, i as int),
        decreases v.len() - i,
    {
        push_char(&mut r, v[i]);
        i = i + 1;
    }
    proof {
        assert(r@ =~= v@);
    }
    r
}

} // verus!
