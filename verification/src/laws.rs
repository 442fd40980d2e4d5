//! The dialect's laws: what holds of every parse, proved once and for
//! all over the specification functions.

use vstd::prelude::*;

use crate::elem::JdModel;
use crate::line::classify;
use crate::line::digit_run;
use crate::line::hash_run;
use crate::line::line_blank;
use crate::line::line_bullet;
use crate::line::line_check;
use crate::line::line_heading;
use crate::line::line_number;
use crate::line::LineClass;
use crate::machine::close;
use crate::machine::open_block;
use crate::machine::step;
use crate::machine::PState;
use crate::parser::jd_lines;
use crate::parser::parse_spec;
use crate::parser::run;
use crate::text::is_jd_ws;
use crate::text::lemma_lead_count;
use crate::text::lemma_trim_nonempty;
use crate::text::trim;

verus! {

/// No element is ever empty: a block holds text, and a list at least
/// one item, every item text non-empty; a heading level is at least
/// one.
pub open spec fn model_wf(e: JdModel) -> bool {
    match e {
        JdModel::Paragraph { text } => text.len() > 0,
        JdModel::TitleOrHeading { text, level } => text.len() > 0 && level >= 1,
        JdModel::UnorderedList { items } => items.len() > 0 && (forall|i: int|
            0 <= i < items.len() ==> items[i].len() > 0),
        JdModel::OrderedList { items } => items.len() > 0 && (forall|i: int|
            0 <= i < items.len() ==> items[i].len() > 0),
        JdModel::Checklist { items } => items.len() > 0 && (forall|i: int|
            0 <= i < items.len() ==> items[i].0.len() > 0),
    }
}

/// The payload a classified line carries is never empty.
pub open spec fn class_wf(lc: LineClass) -> bool {
    match lc {
        LineClass::Blank => true,
        LineClass::Heading { level, text } => level >= 1 && text.len() > 0,
        LineClass::CheckItem { text, done: _ } => text.len() > 0,
        LineClass::BulletItem { text } => text.len() > 0,
        LineClass::NumberItem { marker: _, text } => text.len() > 0,
        LineClass::ParaLine { text } => text.len() > 0,
    }
}

/// Whatever block is open holds only non-empty texts, and at least one.
pub open spec fn state_wf(st: PState) -> bool {
    match st {
        PState::Idle => true,
        PState::InParagraph { text } => text.len() > 0,
        PState::InUnordered { items } => items.len() > 0 && (forall|i: int|
            0 <= i < items.len() ==> items[i].len() > 0),
        PState::InOrdered { items, expected: _ } => items.len() > 0 && (forall|i: int|
            0 <= i < items.len() ==> items[i].len() > 0),
        PState::InChecklist { items } => items.len() > 0 && (forall|i: int|
            0 <= i < items.len() ==> items[i].0.len() > 0),
    }
}

/// Classification only ever hands the assembler non-empty payloads.
pub proof fn lemma_classify_wf(s: Seq<char>)
    ensures
        class_wf(classify(s)),
{
}

/// Closing a well-formed open block emits only well-formed elements.
pub proof fn lemma_close_wf(st: PState)
    requires
        state_wf(st),
    ensures
        forall|i: int| 0 <= i < close(st).len() ==> model_wf(close(st)[i]),
{
}

/// One transition from a well-formed state on a well-formed line
/// emits only well-formed elements and leaves a well-formed state.
pub proof fn lemma_step_wf(st: PState, lc: LineClass)
    requires
        state_wf(st),
        class_wf(lc),
    ensures
        forall|i: int| 0 <= i < step(st, lc).0.len() ==> model_wf(step(st, lc).0[i]),
        state_wf(step(st, lc).1),
{
    lemma_close_wf(st);
}

/// Folding the assembler from a well-formed state emits only
/// well-formed elements and ends in a well-formed state.
pub proof fn lemma_run_wf(st: PState, ls: Seq<Seq<char>>)
    requires
        state_wf(st),
    ensures
        forall|i: int| 0 <= i < run(st, ls).0.len() ==> model_wf(run(st, ls).0[i]),
        state_wf(run(st, ls).1),
    decreases ls.len(),
{
    if ls.len() > 0 {
        lemma_classify_wf(ls[0]);
        lemma_step_wf(st, classify(ls[0]));
        lemma_run_wf(step(st, classify(ls[0])).1, ls.drop_first());
    }
}

/// For all inputs, the returned sequence never contains an element
/// with empty text or items, and every heading level is at least one;
/// runs of blank lines produce no element at all.
pub proof fn lemma_no_empty_elements(s: Seq<char>)
    ensures
        forall|i: int| 0 <= i < parse_spec(s).len() ==> model_wf(parse_spec(s)[i]),
{
    lemma_run_wf(PState::Idle, jd_lines(s));
    lemma_close_wf(run(PState::Idle, jd_lines(s)).1);
}

/// A line of one or more `#`, a space, and non-empty text is a heading
/// whose level is exactly the count of leading `#` characters.
pub proof fn lemma_heading_level(line: Seq<char>, k: int)
    requires
        1 <= k < line.len(),
        forall|j: int| 0 <= j < k ==> line[j] == '#',
        line[k] == ' ',
        trim(line.skip(k + 1)).len() > 0,
    ensures
        classify(line) == (LineClass::Heading { level: k as nat, text: trim(line.skip(k + 1)) }),
{
    lemma_lead_count(line, |c: char| c == '#', k);
    lemma_trim_nonempty(line, 0);
}

/// A `#`-run not followed by a space is never classified as a heading:
/// the line is one paragraph of prose.
pub proof fn lemma_hash_without_space_is_prose(line: Seq<char>)
    requires
        line.len() >= 1,
        line[0] == '#',
        hash_run(line) == line.len() || line[hash_run(line) as int] != ' ',
    ensures
        classify(line) == (LineClass::ParaLine { text: trim(line) }),
{
    lemma_trim_nonempty(line, 0);
    assert(!line_heading(line));
    assert(digit_run(line) == 0);
}

/// A dash without a following space is never a list item: the line is
/// one paragraph of prose.
pub proof fn lemma_dash_without_space_is_prose(line: Seq<char>)
    requires
        line.len() >= 1,
        line[0] == '-',
        line.len() >= 2 ==> line[1] != ' ',
    ensures
        classify(line) == (LineClass::ParaLine { text: trim(line) }),
{
    lemma_trim_nonempty(line, 0);
    assert(hash_run(line) == 0);
    assert(digit_run(line) == 0);
}

/// A checklist never absorbs a plain-dash line: the open checklist
/// closes and a fresh unordered list opens, blank line or not.
pub proof fn lemma_checklist_never_absorbs_bullet(items: Seq<(Seq<char>, bool)>, text: Seq<char>)
    ensures
        step(PState::InChecklist { items }, LineClass::BulletItem { text }).0 == seq![
            JdModel::Checklist { items },
        ],
        step(PState::InChecklist { items }, LineClass::BulletItem { text }).1
            == (PState::InUnordered { items: seq![text] }),
{
    assert(step(PState::InChecklist { items }, LineClass::BulletItem { text }).0 =~= seq![
        JdModel::Checklist { items },
    ]);
}

/// A plain unordered list never absorbs a checklist line: the open
/// list closes and a fresh checklist opens, blank line or not.
pub proof fn lemma_bullets_never_absorb_check(items: Seq<Seq<char>>, text: Seq<char>, done: bool)
    ensures
        step(PState::InUnordered { items }, LineClass::CheckItem { text, done }).0 == seq![
            JdModel::UnorderedList { items },
        ],
        step(PState::InUnordered { items }, LineClass::CheckItem { text, done }).1
            == (PState::InChecklist { items: seq![(text, done)] }),
{
    assert(step(PState::InUnordered { items }, LineClass::CheckItem { text, done }).0 =~= seq![
        JdModel::UnorderedList { items },
    ]);
}

/// An ordered item continues the open ordered list exactly when its
/// marker is the expected one; a marker-sequence discontinuity closes
/// the list and opens a new one seeded by the unexpected marker.
pub proof fn lemma_marker_break_splits(
    items: Seq<Seq<char>>,
    expected: nat,
    marker: nat,
    text: Seq<char>,
)
    ensures
        marker == expected ==> step(
            PState::InOrdered { items, expected },
            LineClass::NumberItem { marker, text },
        ) == (
            Seq::<JdModel>::empty(),
            PState::InOrdered { items: items.push(text), expected: marker + 1 },
        ),
        marker != expected ==> step(
            PState::InOrdered { items, expected },
            LineClass::NumberItem { marker, text },
        ) == (
            seq![JdModel::OrderedList { items }],
            PState::InOrdered { items: seq![text], expected: marker + 1 },
        ),
{
}

/// A heading needs no blank line on either side: from any state it
/// closes whatever block is open, emits at once, and returns to idle.
pub proof fn lemma_heading_emits_at_once(st: PState, level: nat, text: Seq<char>)
    ensures
        step(st, LineClass::Heading { level, text }).0 == close(st) + seq![
            JdModel::TitleOrHeading { text, level },
        ],
        step(st, LineClass::Heading { level, text }).1 == PState::Idle,
{
}

/// A blank line closes whatever block is open and contributes nothing.
pub proof fn lemma_blank_closes(st: PState)
    ensures
        step(st, LineClass::Blank).0 == close(st),
        step(st, LineClass::Blank).1 == PState::Idle,
{
    assert(step(st, LineClass::Blank).0 =~= close(st));
}

/// A blank line before any content is fully absorbed.
pub proof fn lemma_leading_blank_absorbed(b: Seq<char>, ls: Seq<Seq<char>>)
    requires
        trim(b).len() == 0,
    ensures
        run(PState::Idle, seq![b] + ls).0 == run(PState::Idle, ls).0,
        run(PState::Idle, seq![b] + ls).1 == run(PState::Idle, ls).1,
{
    let full = seq![b] + ls;
    assert(full[0] == b);
    assert(classify(b) == LineClass::Blank);
    lemma_blank_closes(PState::Idle);
    assert(full.drop_first() =~= ls);
    assert(run(PState::Idle, full).0 =~= run(PState::Idle, ls).0);
}

/// A second blank line right after a blank line is fully absorbed:
/// runs of blank lines collapse to one with no effect on the output.
pub proof fn lemma_blank_run_collapses(st: PState, ls: Seq<Seq<char>>, i: int, b: Seq<char>)
    requires
        0 <= i < ls.len(),
        trim(ls[i]).len() == 0,
        trim(b).len() == 0,
    ensures
        run(st, ls.insert(i + 1, b)).0 == run(st, ls).0,
        run(st, ls.insert(i + 1, b)).1 == run(st, ls).1,
    decreases i,
{
    let grown = ls.insert(i + 1, b);
    assert(grown[0] == ls[0]);
    let next = step(st, classify(ls[0])).1;
    if i == 0 {
        assert(classify(ls[0]) == LineClass::Blank);
        lemma_blank_closes(st);
        assert(next == PState::Idle);
        assert(grown.drop_first() =~= seq![b] + ls.drop_first());
        lemma_leading_blank_absorbed(b, ls.drop_first());
        assert(run(st, grown).0 =~= run(st, ls).0);
    } else {
        assert(grown.drop_first() =~= ls.drop_first().insert(i, b));
        assert(ls.drop_first()[i - 1] == ls[i]);
        lemma_blank_run_collapses(next, ls.drop_first(), i - 1, b);
        assert(run(st, grown).0 =~= run(st, ls).0);
    }
}

/// A blank line at the very end is fully absorbed: it closes the open
/// block exactly as the end of input would have.
pub proof fn lemma_trailing_blank_absorbed(st: PState, ls: Seq<Seq<char>>, b: Seq<char>)
    requires
        trim(b).len() == 0,
    ensures
        run(st, ls.push(b)).0 + close(run(st, ls.push(b)).1) == run(st, ls).0 + close(
            run(st, ls).1,
        ),
    decreases ls.len(),
{
    let grown = ls.push(b);
    reveal_with_fuel(run, 3);
    if ls.len() == 0 {
        assert(grown[0] == b);
        assert(classify(b) == LineClass::Blank);
        lemma_blank_closes(st);
        assert(grown.drop_first() =~= Seq::<Seq<char>>::empty());
        assert(run(st, grown).0 + close(run(st, grown).1) =~= run(st, ls).0 + close(
            run(st, ls).1,
        ));
    } else {
        assert(grown[0] == ls[0]);
        assert(grown.drop_first() =~= ls.drop_first().push(b));
        let first = step(st, classify(ls[0])).0;
        let next = step(st, classify(ls[0])).1;
        let with_b = run(next, grown.drop_first());
        let without = run(next, ls.drop_first());
        lemma_trailing_blank_absorbed(next, ls.drop_first(), b);
        assert(with_b.0 + close(with_b.1) == without.0 + close(without.1));
        assert(run(st, grown).0 + close(run(st, grown).1) =~= first + (with_b.0 + close(
            with_b.1,
        )));
        assert(run(st, ls).0 + close(run(st, ls).1) =~= first + (without.0 + close(without.1)));
    }
}

/// Parsing is a pure function of the input alone: the same text always
/// yields the identical element sequence, with no hidden state between
/// calls.
pub proof fn lemma_reparse_identical(a: Seq<char>, b: Seq<char>)
    requires
        a == b,
    ensures
        parse_spec(a) == parse_spec(b),
{
}

} // verus!
