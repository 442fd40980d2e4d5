//! The parser's output unit: a tagged variant over the five block
//! kinds, and its mathematical model.

use vstd::prelude::*;

use crate::text::chars_to_string;

verus! {

/// One block element of a parsed document, in source order.
#[derive(Debug, PartialEq, Eq)]
pub enum JdElement {
    /// One contiguous prose block, trimmed.
    Paragraph(String),
    /// Heading text and its level, the count of leading `#`.
    TitleOrHeading((String, usize)),
    /// Item texts of a `- ` list, in source order, each trimmed.
    UnorderedList(Vec<String>),
    /// Item texts of a numbered list; the markers are not retained.
    OrderedList(Vec<String>),
    /// Item texts of a `- [ ] `/`- [x] ` list with the checked flag.
    Checklist(Vec<(String, bool)>),
}

/// The mathematical model of a block element.
#[allow(inconsistent_fields)]
pub enum JdModel {
    Paragraph { text: Seq<char> },
    TitleOrHeading { text: Seq<char>, level: nat },
    UnorderedList { items: Seq<Seq<char>> },
    OrderedList { items: Seq<Seq<char>> },
    Checklist { items: Seq<(Seq<char>, bool)> },
}

/// The texts a sequence of owned strings holds.
pub open spec fn strs_view(v: Seq<String>) -> Seq<Seq<char>> {
    v.map_values(|s: String| s@)
}

/// The texts a sequence of character buffers holds.
pub open spec fn texts_view(v: Seq<Vec<char>>) -> Seq<Seq<char>> {
    v.map_values(|x: Vec<char>| x@)
}

/// The (text, checked) pairs a sequence of string pairs holds.
pub open spec fn spairs_view(v: Seq<(String, bool)>) -> Seq<(Seq<char>, bool)> {
    v.map_values(|p: (String, bool)| (p.0@, p.1))
}

/// The (text, checked) pairs a sequence of buffer pairs holds.
pub open spec fn cpairs_view(v: Seq<(Vec<char>, bool)>) -> Seq<(Seq<char>, bool)> {
    v.map_values(|p: (Vec<char>, bool)| (p.0@, p.1))
}

impl View for JdElement {
    type V = JdModel;

    open spec fn view(&self) -> JdModel {
        match self {
            JdElement::Paragraph(t) => JdModel::Paragraph { text: t@ },
            JdElement::TitleOrHeading(p) => JdModel::TitleOrHeading {
                text: p.0@,
                level: p.1 as nat,
            },
            JdElement::UnorderedList(v) => JdModel::UnorderedList { items: strs_view(v@) },
            JdElement::OrderedList(v) => JdModel::OrderedList { items: strs_view(v@) },
            JdElement::Checklist(v) => JdModel::Checklist { items: spairs_view(v@) },
        }
    }
}

/// The models of a sequence of elements.
pub open spec fn elems_view(v: Seq<JdElement>) -> Seq<JdModel> {
    v.map_values(|e: JdElement| e@)
}

/// Owned strings holding exactly the given texts.
pub fn strings_of(v: Vec<Vec<char>>) -> (r: Vec<String>)
    ensures
        strs_view(r@) == texts_view(v@),
{
    let mut r: Vec<String> = Vec::new();
    let mut i: usize = 0;
    while i < v.len()
        invariant
            i <= v.len(),
            r@.len() == i,
            forall|j: int| 0 <= j < i ==> r@[j]@ == v@[j]@,
        decreases v.len() - i,
    {
        r.push(chars_to_string(&v[i]));
        i = i + 1;
    }
    proof {
        assert(strs_view(r@) =~= texts_view(v@));
    }
    r
}

/// Owned string pairs holding exactly the given texts and flags.
pub fn pairs_of(v: Vec<(Vec<char>, bool)>) -> (r: Vec<(String, bool)>)
    ensures
        spairs_view(r@) == cpairs_view(v@),
{
    let mut r: Vec<(String, bool)> = Vec::new();
    let mut i: usize = 0;
    while i < v.len()
        invariant
            i <= v.len(),
            r@.len() == i,
            forall|j: int| 0 <= j < i ==> r@[j].0@ == v@[j].0@ && r@[j].1 == v@[j].1,
        decreases v.len() - i,
    {
        let s = chars_to_string(&v[i].0);
        r.push((s, v[i].1));
        i = i + 1;
    }
    proof {
        assert(spairs_view(r@) =~= cpairs_view(v@));
    }
    r
}

} // verus!
