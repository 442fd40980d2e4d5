//! The block assembler: a small state machine that consumes classified
//! lines in order and groups them into block elements.
//!
//! Policy note: consecutive paragraph lines merge into one paragraph,
//! joined by a single space.

use vstd::prelude::*;

use crate::elem::cpairs_view;
use crate::elem::elems_view;
use crate::elem::pairs_of;
use crate::elem::strings_of;
use crate::elem::texts_view;
use crate::elem::JdElement;
use crate::elem::JdModel;
use crate::line::LineClass;
use crate::line::LineKind;
use crate::text::chars_to_string;

verus! {

/// What block is being built, and what it holds so far.
#[allow(inconsistent_fields)]
pub enum PState {
    /// Between blocks.
    Idle,
    /// Prose lines joined so far.
    InParagraph { text: Seq<char> },
    /// Items of a `- ` list so far.
    InUnordered { items: Seq<Seq<char>> },
    /// Items of a numbered list so far, and the next expected marker.
    InOrdered { items: Seq<Seq<char>>, expected: nat },
    /// Items of a checklist so far.
    InChecklist { items: Seq<(Seq<char>, bool)> },
}

/// The element the open block yields when it closes; none when idle.
pub open spec fn close(st: PState) -> Seq<JdModel> {
    match st {
        PState::Idle => Seq::<JdModel>::empty(),
        PState::InParagraph { text } => seq![JdModel::Paragraph { text }],
        PState::InUnordered { items } => seq![JdModel::UnorderedList { items }],
        PState::InOrdered { items, expected: _ } => seq![JdModel::OrderedList { items }],
        PState::InChecklist { items } => seq![JdModel::Checklist { items }],
    }
}

/// What a line opens from the idle state: a heading emits at once and
/// returns to idle; a blank stays idle; anything else opens its block.
pub open spec fn open_block(lc: LineClass) -> (Seq<JdModel>, PState) {
    match lc {
        LineClass::Blank => (Seq::<JdModel>::empty(), PState::Idle),
        LineClass::Heading { level, text } => (
            seq![JdModel::TitleOrHeading { text, level }],
            PState::Idle,
        ),
        LineClass::CheckItem { text, done } => (
            Seq::<JdModel>::empty(),
            PState::InChecklist { items: seq![(text, done)] },
        ),
        LineClass::BulletItem { text } => (
            Seq::<JdModel>::empty(),
            PState::InUnordered { items: seq![text] },
        ),
        LineClass::NumberItem { marker, text } => (
            Seq::<JdModel>::empty(),
            PState::InOrdered { items: seq![text], expected: marker + 1 },
        ),
        LineClass::ParaLine { text } => (Seq::<JdModel>::empty(), PState::InParagraph { text }),
    }
}

/// One transition: the elements it emits and the state it moves to.
///
/// A block continues only on its own item kind — an ordered list also
/// only on the expected marker; everything else closes the block and
/// reopens from idle.
pub open spec fn step(st: PState, lc: LineClass) -> (Seq<JdModel>, PState) {
    match (st, lc) {
        (PState::InParagraph { text }, LineClass::ParaLine { text: u }) => (
            Seq::<JdModel>::empty(),
            PState::InParagraph { text: text + seq![' '] + u },
        ),
        (PState::InUnordered { items }, LineClass::BulletItem { text }) => (
            Seq::<JdModel>::empty(),
            PState::InUnordered { items: items.push(text) },
        ),
        (PState::InChecklist { items }, LineClass::CheckItem { text, done }) => (
            Seq::<JdModel>::empty(),
            PState::InChecklist { items: items.push((text, done)) },
        ),
        (PState::InOrdered { items, expected }, LineClass::NumberItem { marker, text }) => {
            if marker == expected {
                (
                    Seq::<JdModel>::empty(),
                    PState::InOrdered { items: items.push(text), expected: marker + 1 },
                )
            } else {
                (
                    seq![JdModel::OrderedList { items }],
                    PState::InOrdered { items: seq![text], expected: marker + 1 },
                )
            }
        },
        (s, l) => {
            let o = open_block(l);
            (close(s) + o.0, o.1)
        },
    }
}

/// The executable mirror of [`PState`].
pub enum RState {
    Idle,
    InParagraph(Vec<char>),
    InUnordered(Vec<Vec<char>>),
    InOrdered(Vec<Vec<char>>, u64),
    InChecklist(Vec<(Vec<char>, bool)>),
}

impl View for RState {
    type V = PState;

    open spec fn view(&self) -> PState {
        match self {
            RState::Idle => PState::Idle,
            RState::InParagraph(t) => PState::InParagraph { text: t@ },
            RState::InUnordered(v) => PState::InUnordered { items: texts_view(v@) },
            RState::InOrdered(v, e) => PState::InOrdered {
                items: texts_view(v@),
                expected: *e as nat,
            },
            RState::InChecklist(v) => PState::InChecklist { items: cpairs_view(v@) },
        }
    }
}

/// Close the open block, if any, and emit its element.
pub fn close_exec(st: RState, out: &mut Vec<JdElement>)
    ensures
        elems_view(final(out)@) == elems_view(old(out)@) + close(st@),
{
    let ghost st0 = st@;
    match st {
        RState::Idle => {
            proof {
                assert(elems_view(out@) =~= elems_view(out@) + close(st0));
            }
        },
        RState::InParagraph(t) => {
            let s = chars_to_string(&t);
            out.push(JdElement::Paragraph(s));
            proof {
                assert(elems_view(out@) =~= elems_view(old(out)@) + close(st0));
            }
        },
        RState::InUnordered(v) => {
            out.push(JdElement::UnorderedList(strings_of(v)));
            proof {
                assert(elems_view(out@) =~= elems_view(old(out)@) + close(st0));
            }
        },
        RState::InOrdered(v, _) => {
            out.push(JdElement::OrderedList(strings_of(v)));
            proof {
                assert(elems_view(out@) =~= elems_view(old(out)@) + close(st0));
            }
        },
        RState::InChecklist(v) => {
            out.push(JdElement::Checklist(pairs_of(v)));
            proof {
                assert(elems_view(out@) =~= elems_view(old(out)@) + close(st0));
            }
        },
    }
}

/// Open a block from the idle state, as [`open_block`] says.
pub fn open_exec(lk: LineKind, out: &mut Vec<JdElement>) -> (r: RState)
    requires
        lk@ matches LineClass::NumberItem { marker, .. } ==> marker + 1 <= u64::MAX,
    ensures
        elems_view(final(out)@) == elems_view(old(out)@) + open_block(lk@).0,
        r@ == open_block(lk@).1,
{
    let ghost l0 = lk@;
    match lk {
        LineKind::Blank => {
            proof {
                assert(elems_view(out@) =~= elems_view(out@) + open_block(l0).0);
            }
            RState::Idle
        },
        LineKind::Heading(level, text) => {
            let s = chars_to_string(&text);
            out.push(JdElement::TitleOrHeading((s, level)));
            proof {
                assert(elems_view(out@) =~= elems_view(old(out)@) + open_block(l0).0);
            }
            RState::Idle
        },
        LineKind::CheckItem(text, done) => {
            let mut v: Vec<(Vec<char>, bool)> = Vec::new();
            v.push((text, done));
            proof {
                assert(elems_view(out@) =~= elems_view(out@) + open_block(l0).0);
                assert(cpairs_view(v@) =~= open_block(l0).1->InChecklist_items);
            }
            RState::InChecklist(v)
        },
        LineKind::BulletItem(text) => {
            let mut v: Vec<Vec<char>> = Vec::new();
            v.push(text);
            proof {
                assert(elems_view(out@) =~= elems_view(out@) + open_block(l0).0);
                assert(texts_view(v@) =~= open_block(l0).1->InUnordered_items);
            }
            RState::InUnordered(v)
        },
        LineKind::NumberItem(marker, text) => {
            let mut v: Vec<Vec<char>> = Vec::new();
            v.push(text);
            proof {
                assert(elems_view(out@) =~= elems_view(out@) + open_block(l0).0);
                assert(texts_view(v@) =~= open_block(l0).1->InOrdered_items);
            }
            RState::InOrdered(v, marker + 1)
        },
        LineKind::ParaLine(text) => {
            proof {
                assert(elems_view(out@) =~= elems_view(out@) + open_block(l0).0);
            }
            RState::InParagraph(text)
        },
    }
}

/// One transition of the assembler, as [`step`] says.
pub fn step_exec(st: RState, lk: LineKind, out: &mut Vec<JdElement>) -> (r: RState)
    requires
        lk@ matches LineClass::NumberItem { marker, .. } ==> marker + 1 <= u64::MAX,
    ensures
        elems_view(final(out)@) == elems_view(old(out)@) + step(st@, lk@).0,
        r@ == step(st@, lk@).1,
{
    let ghost st0 = st@;
    let ghost l0 = lk@;
    match (st, lk) {
        (RState::InParagraph(t), LineKind::ParaLine(u)) => {
            let mut t = t;
            let mut u = u;
            t.push(' ');
            t.append(&mut u);
            proof {
                assert(t@ =~= st0->InParagraph_text + seq![' '] + l0->ParaLine_text);
                assert(elems_view(out@) =~= elems_view(out@) + step(st0, l0).0);
            }
            RState::InParagraph(t)
        },
        (RState::InUnordered(v), LineKind::BulletItem(u)) => {
            let mut v = v;
            v.push(u);
            proof {
                assert(texts_view(v@) =~= st0->InUnordered_items.push(l0->BulletItem_text));
                assert(elems_view(out@) =~= elems_view(out@) + step(st0, l0).0);
            }
            RState::InUnordered(v)
        },
        (RState::InChecklist(v), LineKind::CheckItem(u, d)) => {
            let mut v = v;
            v.push((u, d));
            proof {
                assert(cpairs_view(v@) =~= st0->InChecklist_items.push(
                    (l0->CheckItem_text, l0->CheckItem_done),
                ));
                assert(elems_view(out@) =~= elems_view(out@) + step(st0, l0).0);
            }
            RState::InChecklist(v)
        },
        (RState::InOrdered(v, expected), LineKind::NumberItem(m, u)) => {
            if m == expected {
                let mut v = v;
                v.push(u);
                proof {
                    assert(texts_view(v@) =~= st0->InOrdered_items.push(l0->NumberItem_text));
                    assert(elems_view(out@) =~= elems_view(out@) + step(st0, l0).0);
                }
                RState::InOrdered(v, m + 1)
            } else {
                out.push(JdElement::OrderedList(strings_of(v)));
                let mut nv: Vec<Vec<char>> = Vec::new();
                nv.push(u);
                proof {
                    assert(texts_view(nv@) =~= seq![l0->NumberItem_text]);
                    assert(elems_view(out@) =~= elems_view(old(out)@) + step(st0, l0).0);
                }
                RState::InOrdered(nv, m + 1)
            }
        },
        (s, l) => {
            close_exec(s, out);
            let r = open_exec(l, out);
            proof {
                assert(elems_view(out@) =~= elems_view(old(out)@) + step(st0, l0).0);
            }
            r
        },
    }
}

} // verus!
