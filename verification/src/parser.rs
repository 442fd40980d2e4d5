//! The top-level driver: split the input into physical lines at
//! line-feed boundaries, classify each line, and fold the block
//! assembler over them.

use vstd::prelude::*;

use crate::elem::elems_view;
use crate::elem::texts_view;
use crate::elem::JdElement;
use crate::elem::JdModel;
use crate::line::classify;
use crate::line::classify_line;
use crate::line::lemma_marker_fits;
use crate::machine::close;
use crate::machine::close_exec;
use crate::machine::step;
use crate::machine::step_exec;
use crate::machine::PState;
use crate::machine::RState;
use crate::text::chars_to_string;

verus! {

/// The lines of `s` after the current partial line `cur`, split at
/// every line feed; the text after the last line feed is a line too.
pub open spec fn split_rec(s: Seq<char>, cur: Seq<char>) -> Seq<Seq<char>>
    decreases s.len(),
{
    if s.len() == 0 {
        seq![cur]
    } else if s[0] == '\n' {
        seq![cur] + split_rec(s.drop_first(), Seq::<char>::empty())
    } else {
        split_rec(s.drop_first(), cur.push(s[0]))
    }
}

/// The physical lines of a document.
pub open spec fn jd_lines(s: Seq<char>) -> Seq<Seq<char>> {
    split_rec(s, Seq::<char>::empty())
}

/// Fold the assembler over classified lines from state `st`: all
/// elements emitted, and the state left open at the end.
pub open spec fn run(st: PState, ls: Seq<Seq<char>>) -> (Seq<JdModel>, PState)
    decreases ls.len(),
{
    if ls.len() == 0 {
        (Seq::<JdModel>::empty(), st)
    } else {
        let first = step(st, classify(ls[0]));
        let rest = run(first.1, ls.drop_first());
        (first.0 + rest.0, rest.1)
    }
}

/// The ordered sequence of block elements of a document: fold the
/// assembler over its lines from idle, then close whatever block is
/// still open at end of input.
pub open spec fn parse_spec(s: Seq<char>) -> Seq<JdModel> {
    let r = run(PState::Idle, jd_lines(s));
    r.0 + close(r.1)
}

/// Split the input into physical lines at line-feed boundaries.
fn split_lines(input: &str) -> (lines: Vec<Vec<char>>)
    ensures
        texts_view(lines@) == jd_lines(input@),
{
    let n = input.unicode_len();
    let mut lines: Vec<Vec<char>> = Vec::new();
    let mut cur: Vec<char> = Vec::new();
    let mut i: usize = 0;
    proof {
        assert(input@.skip(0) =~= input@);
        assert(texts_view(lines@) + split_rec(input@, cur@) =~= split_rec(input@, cur@));
    }
    while i < n
        invariant
            i <= n,
            n == input@.len(),
            jd_lines(input@) == texts_view(lines@) + split_rec(input@.skip(i as int), cur@),
        decreases n - i,
    {
        let c = input.get_char(i);
        proof {
            assert(input@.skip(i as int)[0] == input@[i as int]);
            assert(input@.skip(i as int).drop_first() =~= input@.skip(i + 1));
        }
        if c == '\n' {
            let ghost lines0 = lines@;
            let ghost cur0 = cur@;
            lines.push(cur);
            cur = Vec::new();
            proof {
                assert(texts_view(lines@) =~= texts_view(lines0).push(cur0));
                assert(texts_view(lines0) + (seq![cur0] + split_rec(
                    input@.skip(i + 1),
                    Seq::<char>::empty(),
                )) =~= texts_view(lines@) + split_rec(input@.skip(i + 1), Seq::<char>::empty()));
            }
        } else {
            cur.push(c);
        }
        i = i + 1;
    }
    proof {
        assert(input@.skip(n as int) =~= Seq::<char>::empty());
        let ghost lines0 = lines@;
        assert(jd_lines(input@) == texts_view(lines0) + seq![cur@]);
        assert(texts_view(lines0.push(cur)) =~= texts_view(lines0) + seq![cur@]);
    }
    lines.push(cur);
    lines
}

/// Parse a Jotdown document.
///
/// The operation is total: it succeeds on every input and returns the
/// unconsumed remainder — always empty for this dialect — together with
/// the ordered sequence of block elements, exactly [`parse_spec`] of
/// the input.
pub fn parse_jotdown(input: &str) -> (r: Option<(String, Vec<JdElement>)>)
    ensures
        r is Some,
        r->Some_0.0@ == Seq::<char>::empty(),
        elems_view(r->Some_0.1@) == parse_spec(input@),
{
    let lines = split_lines(input);
    let ghost all = jd_lines(input@);
    let mut out: Vec<JdElement> = Vec::new();
    let mut st = RState::Idle;
    let mut i: usize = 0;
    proof {
        assert(all.skip(0) =~= all);
        assert(elems_view(out@) + run(PState::Idle, all).0 =~= run(PState::Idle, all).0);
    }
    while i < lines.len()
        invariant
            i <= lines.len(),
            texts_view(lines@) == all,
            elems_view(out@) + run(st@, all.skip(i as int)).0 == run(PState::Idle, all).0,
            run(st@, all.skip(i as int)).1 == run(PState::Idle, all).1,
        decreases lines.len() - i,
    {
        let ghost st0 = st@;
        let ghost tail = all.skip(i as int);
        proof {
            assert(tail[0] == all[i as int]);
            assert(all[i as int] == lines@[i as int]@);
            assert(tail.drop_first() =~= all.skip(i + 1));
            lemma_marker_fits(lines@[i as int]@);
        }
        let lk = classify_line(&lines[i]);
        let ghost out0 = out@;
        st = step_exec(st, lk, &mut out);
        proof {
            assert(run(st0, tail).0 == step(st0, classify(tail[0])).0 + run(st@, all.skip(i + 1)).0);
            assert(elems_view(out@) + run(st@, all.skip(i + 1)).0 =~= (elems_view(out0) + step(
                st0,
                classify(tail[0]),
            ).0) + run(st@, all.skip(i + 1)).0);
            assert((elems_view(out0) + step(st0, classify(tail[0])).0) + run(
                st@,
                all.skip(i + 1),
            ).0 =~= elems_view(out0) + run(st0, tail).0);
        }
        i = i + 1;
    }
    proof {
        assert(all.skip(lines@.len() as int) =~= Seq::<Seq<char>>::empty());
        assert(elems_view(out@) =~= elems_view(out@) + run(st@, Seq::<Seq<char>>::empty()).0);
    }
    close_exec(st, &mut out);
    proof {
        assert(elems_view(out@) == run(PState::Idle, all).0 + close(run(PState::Idle, all).1));
    }
    Some((String::new(), out))
}

} // verus!
