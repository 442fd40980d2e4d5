//! The line classifier: the per-line, context-free determination of
//! which block type a line could start or continue.
//!
//! Policy notes, where the dialect leaves room:
//! - every candidate needs non-empty trimmed item text; a bare marker
//!   (`"- "`, `"1. "`, `"# "`) falls through to the next candidate and
//!   ultimately to a paragraph line;
//! - an ordered marker is capped at nineteen digits, so that it and its
//!   successor always fit a 64-bit word; a longer digit run reads as
//!   paragraph text.

use vstd::prelude::*;

use crate::text::digit_val;
use crate::text::digits_value;
use crate::text::is_digit;
use crate::text::is_jd_ws;
use crate::text::lead_count;
use crate::text::lemma_digits_value_bound;
use crate::text::lemma_lead_count;
use crate::text::lemma_pow10_19;
use crate::text::lemma_pow10_le;
use crate::text::pow10;
use crate::text::trim;
use crate::text::trim_chars;

verus! {

/// The candidate role of one physical line.
pub enum LineClass {
    /// Nothing but whitespace; a block separator.
    Blank,
    /// `#`-run, one space, non-empty text.
    Heading { level: nat, text: Seq<char> },
    /// `- [ ] ` or `- [x] ` and non-empty text.
    CheckItem { text: Seq<char>, done: bool },
    /// `- ` and non-empty text, and not a checklist item.
    BulletItem { text: Seq<char> },
    /// Digits, `.`, a space, non-empty text.
    NumberItem { marker: nat, text: Seq<char> },
    /// Everything else: one line of prose.
    ParaLine { text: Seq<char> },
}

/// The length of the run of leading `#` characters.
pub open spec fn hash_run(s: Seq<char>) -> nat {
    lead_count(s, |c: char| c == '#')
}

/// The length of the run of leading ASCII digits.
pub open spec fn digit_run(s: Seq<char>) -> nat {
    lead_count(s, |c: char| is_digit(c))
}

/// The line is nothing but whitespace.
pub open spec fn line_blank(s: Seq<char>) -> bool {
    trim(s).len() == 0
}

/// One or more `#`, a space, then at least one non-whitespace character.
pub open spec fn line_heading(s: Seq<char>) -> bool {
    let k = hash_run(s) as int;
    1 <= k && k < s.len() && s[k] == ' ' && trim(s.skip(k + 1)).len() > 0
}

/// The six-character checklist prefix `- [ ] ` or `- [x] `.
pub open spec fn check_prefix(s: Seq<char>) -> bool {
    s.len() >= 6 && s[0] == '-' && s[1] == ' ' && s[2] == '[' && (s[3] == ' ' || s[3] == 'x')
        && s[4] == ']' && s[5] == ' '
}

/// Checklist prefix followed by non-empty item text.
pub open spec fn line_check(s: Seq<char>) -> bool {
    check_prefix(s) && trim(s.skip(6)).len() > 0
}

/// `- `, non-empty item text, and not a checklist item.
pub open spec fn line_bullet(s: Seq<char>) -> bool {
    s.len() >= 2 && s[0] == '-' && s[1] == ' ' && !line_check(s) && trim(s.skip(2)).len() > 0
}

/// One to nineteen digits, `.`, a space, then non-empty item text.
pub open spec fn line_number(s: Seq<char>) -> bool {
    let k = digit_run(s) as int;
    1 <= k && k <= 19 && k + 1 < s.len() && s[k] == '.' && s[k + 1] == ' ' && trim(
        s.skip(k + 2),
    ).len() > 0
}

/// The candidate role of the line `s`, by most-specific prefix.
pub open spec fn classify(s: Seq<char>) -> LineClass {
    if line_blank(s) {
        LineClass::Blank
    } else if line_heading(s) {
        LineClass::Heading { level: hash_run(s), text: trim(s.skip(hash_run(s) as int + 1)) }
    } else if line_check(s) {
        LineClass::CheckItem { text: trim(s.skip(6)), done: s[3] == 'x' }
    } else if line_bullet(s) {
        LineClass::BulletItem { text: trim(s.skip(2)) }
    } else if line_number(s) {
        LineClass::NumberItem {
            marker: digits_value(s.take(digit_run(s) as int)),
            text: trim(s.skip(digit_run(s) as int + 2)),
        }
    } else {
        LineClass::ParaLine { text: trim(s) }
    }
}

/// The executable mirror of [`LineClass`].
pub enum LineKind {
    Blank,
    Heading(usize, Vec<char>),
    CheckItem(Vec<char>, bool),
    BulletItem(Vec<char>),
    NumberItem(u64, Vec<char>),
    ParaLine(Vec<char>),
}

impl View for LineKind {
    type V = LineClass;

    open spec fn view(&self) -> LineClass {
        match self {
            LineKind::Blank => LineClass::Blank,
            LineKind::Heading(level, text) => LineClass::Heading {
                level: *level as nat,
                text: text@,
            },
            LineKind::CheckItem(text, done) => LineClass::CheckItem { text: text@, done: *done },
            LineKind::BulletItem(text) => LineClass::BulletItem { text: text@ },
            LineKind::NumberItem(marker, text) => LineClass::NumberItem {
                marker: *marker as nat,
                text: text@,
            },
            LineKind::ParaLine(text) => LineClass::ParaLine { text: text@ },
        }
    }
}

/// An ordered marker and its successor always fit a 64-bit word: the
/// digit run behind it is at most nineteen digits long.
pub proof fn lemma_marker_fits(s: Seq<char>)
    ensures
        classify(s) matches LineClass::NumberItem { marker, .. } ==> marker + 1 <= u64::MAX,
{
    if classify(s) matches LineClass::NumberItem { marker, .. } {
        let k = digit_run(s) as int;
        lemma_digits_value_bound(s.take(k));
        lemma_pow10_le(s.take(k).len() as nat, 19);
        lemma_pow10_19();
    }
}

/// How many leading characters of `line`, from `from` on, are `#`.
fn count_hashes(line: &Vec<char>) -> (k: usize)
    ensures
        k == hash_run(line@),
{
    let mut k: usize = 0;
    while k < line.len() && line[k] == '#'
        invariant
            k <= line.len(),
            forall|j: int| 0 <= j < k ==> line@[j] == '#',
        decreases line.len() - k,
    {
        k = k + 1;
    }
    proof {
        lemma_lead_count(line@, |c: char| c == '#', k as int);
    }
    k
}

/// How many leading characters of `line` are ASCII digits.
fn count_digits(line: &Vec<char>) -> (k: usize)
    ensures
        k == digit_run(line@),
        forall|j: int| 0 <= j < k ==> is_digit(line@[j]),
{
    let mut k: usize = 0;
    while k < line.len() && 48 <= line[k] as u32 && line[k] as u32 <= 57
        invariant
            k <= line.len(),
            forall|j: int| 0 <= j < k ==> is_digit(line@[j]),
        decreases line.len() - k,
    {
        k = k + 1;
    }
    proof {
        lemma_lead_count(line@, |c: char| is_digit(c), k as int);
    }
    k
}

/// The base-ten value of the first `k` characters of `line`, all of
/// them digits.
fn parse_marker(line: &Vec<char>, k: usize) -> (m: u64)
    requires
        k <= line.len(),
        k <= 19,
        forall|j: int| 0 <= j < k ==> is_digit(line@[j]),
    ensures
        m == digits_value(line@.take(k as int)),
        m + 1 <= u64::MAX,
{
    proof {
        lemma_pow10_19();
    }
    let mut m: u64 = 0;
    let mut j: usize = 0;
    while j < k
        invariant
            j <= k <= line.len(),
            k <= 19,
            forall|i: int| 0 <= i < k ==> is_digit(line@[i]),
            m == digits_value(line@.take(j as int)),
            m < pow10(j as nat),
            pow10(19) == 10_000_000_000_000_000_000,
        decreases k - j,
    {
        proof {
            lemma_pow10_le((j + 1) as nat, 19);
            assert(line@.take(j + 1).drop_last() =~= line@.take(j as int));
            assert(line@.take(j + 1).last() == line@[j as int]);
        }
        let d: u64 = (line[j] as u32 - 48) as u64;
        m = m * 10 + d;
        j = j + 1;
    }
    proof {
        lemma_pow10_le(k as nat, 19);
    }
    m
}

/// Classify one physical line, as [`classify`] says.
pub fn classify_line(line: &Vec<char>) -> (r: LineKind)
    ensures
        r@ == classify(line@),
{
    let t = trim_chars(line, 0);
    proof {
        assert(line@.skip(0) =~= line@);
    }
    if t.len() == 0 {
        return LineKind::Blank;
    }
    let k = count_hashes(line);
    if k >= 1 && k < line.len() && line[k] == ' ' {
        let text = trim_chars(line, k + 1);
        if text.len() > 0 {
            return LineKind::Heading(k, text);
        }
    }
    assert(!line_heading(line@));
    if line.len() >= 6 && line[0] == '-' && line[1] == ' ' && line[2] == '[' && (line[3] == ' '
        || line[3] == 'x') && line[4] == ']' && line[5] == ' ' {
        let text = trim_chars(line, 6);
        if text.len() > 0 {
            return LineKind::CheckItem(text, line[3] == 'x');
        }
    }
    assert(!line_check(line@));
    if line.len() >= 2 && line[0] == '-' && line[1] == ' ' {
        let text = trim_chars(line, 2);
        if text.len() > 0 {
            return LineKind::BulletItem(text);
        }
    }
    assert(!line_bullet(line@));
    let d = count_digits(line);
    if d >= 1 && d <= 19 && d + 1 < line.len() && line[d] == '.' && line[d + 1] == ' ' {
        let text = trim_chars(line, d + 2);
        if text.len() > 0 {
            let m = parse_marker(line, d);
            return LineKind::NumberItem(m, text);
        }
    }
    assert(!line_number(line@));
    LineKind::ParaLine(t)
}

} // verus!
