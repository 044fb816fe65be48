//! Declarative structural patterns.
//!
//! A pattern describes the expected shape of one table: a *context*
//! element (the table itself, found anywhere in the document) and a *row*
//! skeleton matched against the context's children.  The row skeleton is
//! a tree of fixed elements interleaved with placeholders: a text-capture
//! placeholder records the character data of the node it aligns with, and
//! an attribute-capture placeholder records an attribute value.  A
//! repeatable pattern yields one row per matching child; a non-repeatable
//! one yields at most one row.

use vstd::prelude::*;
use crate::html::Attr;

verus! {

broadcast use vstd::seq::group_seq_axioms, vstd::std_specs::vec::group_vec_axioms;

/// How a pattern constrains the value of one attribute.
#[derive(Debug)]
pub enum AttrPat {
    /// The attribute must be present with exactly this value.
    Lit(String),
    /// The attribute must be present; its value is captured under this
    /// placeholder name.
    Capture(String),
}

/// One attribute constraint of a pattern element.
#[derive(Debug)]
pub struct PatAttr {
    pub name: String,
    pub value: AttrPat,
}

/// One child position of a pattern element.
#[derive(Debug)]
pub enum PatNode {
    /// A literal text run that must appear at this position.
    Lit(String),
    /// A text-capture placeholder: records, under this name, the
    /// character data of the node it aligns with (for an element, the
    /// text of its descendants concatenated).
    Capture(String),
    /// A fixed element that must appear at this position.
    Elem(PatElem),
}

/// A fixed element of the row skeleton.
#[derive(Debug)]
pub struct PatElem {
    pub tag: String,
    pub attrs: Vec<PatAttr>,
    pub children: Vec<PatNode>,
}

/// A structural pattern for one table type.
#[derive(Debug)]
pub struct Pattern {
    /// Tag of the context element the table lives in.
    pub context_tag: String,
    /// Attributes the context element must carry, with these exact values.
    pub context_attrs: Vec<Attr>,
    /// Skeleton matched against each child of the context element.
    pub row: PatElem,
    /// When set, every matching child yields a row; otherwise the match
    /// yields at most one row.
    pub repeat: bool,
}

/// The mathematical content of an attribute constraint's value.
#[verifier::ext_equal]
pub enum AttrPatV {
    Lit(Seq<char>),
    Capture(Seq<char>),
}

/// The mathematical content of one attribute constraint.
#[verifier::ext_equal]
pub struct PatAttrV {
    pub name: Seq<char>,
    pub value: AttrPatV,
}

/// The mathematical content of one pattern node.
#[verifier::ext_equal]
pub enum PatNodeV {
    Lit(Seq<char>),
    Capture(Seq<char>),
    Elem(PatElemV),
}

/// The mathematical content of one pattern element.
#[verifier::ext_equal]
pub struct PatElemV {
    pub tag: Seq<char>,
    pub attrs: Seq<PatAttrV>,
    pub children: Seq<PatNodeV>,
}

/// The mathematical content of a whole pattern.
#[verifier::ext_equal]
pub struct PatternV {
    pub context_tag: Seq<char>,
    pub context_attrs: Seq<crate::html::AttrV>,
    pub row: PatElemV,
    pub repeat: bool,
}

impl View for PatAttr {
    type V = PatAttrV;

    open spec fn view(&self) -> PatAttrV {
        PatAttrV {
            name: self.name@,
            value: match self.value {
                AttrPat::Lit(t) => AttrPatV::Lit(t@),
                AttrPat::Capture(n) => AttrPatV::Capture(n@),
            },
        }
    }
}

/// The mathematical content of a sequence of attribute constraints.
pub open spec fn pat_attrs_view(ps: Seq<PatAttr>) -> Seq<PatAttrV> {
    ps.map(|i: int, a: PatAttr| a@)
}

/// The mathematical content of one pattern node.
pub open spec fn pat_node_view(p: PatNode) -> PatNodeV
    decreases p,
{
    match p {
        PatNode::Lit(t) => PatNodeV::Lit(t@),
        PatNode::Capture(n) => PatNodeV::Capture(n@),
        PatNode::Elem(pe) => PatNodeV::Elem(pat_elem_view(pe)),
    }
}

/// The mathematical content of a sequence of pattern nodes.
pub open spec fn pat_nodes_view(ps: Seq<PatNode>) -> Seq<PatNodeV>
    decreases ps,
{
    if ps.len() == 0 {
        Seq::empty()
    } else {
        seq![pat_node_view(ps[0])] + pat_nodes_view(ps.subrange(1, ps.len() as int))
    }
}

/// The mathematical content of one pattern element.
pub open spec fn pat_elem_view(pe: PatElem) -> PatElemV
    decreases pe,
{
    PatElemV {
        tag: pe.tag@,
        attrs: pat_attrs_view(pe.attrs@),
        children: pat_nodes_view(pe.children@),
    }
}

impl View for PatElem {
    type V = PatElemV;

    open spec fn view(&self) -> PatElemV {
        pat_elem_view(*self)
    }
}

impl View for Pattern {
    type V = PatternV;

    open spec fn view(&self) -> PatternV {
        PatternV {
            context_tag: self.context_tag@,
            context_attrs: crate::html::attrs_view(self.context_attrs@),
            row: pat_elem_view(self.row),
            repeat: self.repeat,
        }
    }
}

pub broadcast proof fn lemma_pat_nodes_view_len(ps: Seq<PatNode>)
    ensures
        (#[trigger] pat_nodes_view(ps)).len() == ps.len(),
    decreases ps,
{
    if ps.len() > 0 {
        lemma_pat_nodes_view_len(ps.subrange(1, ps.len() as int));
    }
}

pub broadcast proof fn lemma_pat_nodes_view_index(ps: Seq<PatNode>, i: int)
    requires
        0 <= i < ps.len(),
    ensures
        #[trigger] pat_nodes_view(ps)[i] == pat_node_view(ps[i]),
    decreases i,
{
    lemma_pat_nodes_view_len(ps.subrange(1, ps.len() as int));
    if i > 0 {
        lemma_pat_nodes_view_index(ps.subrange(1, ps.len() as int), i - 1);
    }
}

/// Pattern-node views distribute over appending one node.
pub proof fn lemma_pat_nodes_view_push(s: Seq<PatNode>, x: PatNode)
    ensures
        pat_nodes_view(s.push(x)) == pat_nodes_view(s).push(pat_node_view(x)),
    decreases s,
{
    if s.len() == 0 {
        assert(s.push(x)[0] == x);
        assert(s.push(x).subrange(1, 1) =~= Seq::<PatNode>::empty());
        assert(pat_nodes_view(Seq::<PatNode>::empty()) =~= Seq::<PatNodeV>::empty());
        assert(pat_nodes_view(s.push(x)) =~= pat_nodes_view(s).push(pat_node_view(x)));
    } else {
        let t = s.subrange(1, s.len() as int);
        assert(s.push(x)[0] == s[0]);
        assert(s.push(x).subrange(1, s.len() as int + 1) =~= t.push(x));
        lemma_pat_nodes_view_push(t, x);
        assert(pat_nodes_view(s.push(x)) =~= pat_nodes_view(s).push(pat_node_view(x)));
    }
}

/// The placeholder names captured by a sequence of attribute constraints,
/// in order.
pub open spec fn names_in_attrs(ps: Seq<PatAttr>) -> Seq<Seq<char>>
    decreases ps,
{
    if ps.len() == 0 {
        Seq::empty()
    } else {
        (match ps[0].value {
            AttrPat::Capture(n) => seq![n@],
            AttrPat::Lit(_) => Seq::empty(),
        }) + names_in_attrs(ps.subrange(1, ps.len() as int))
    }
}

/// The placeholder names captured by one pattern node, in order.
pub open spec fn names_in_node(p: PatNode) -> Seq<Seq<char>>
    decreases p,
{
    match p {
        PatNode::Lit(_) => Seq::empty(),
        PatNode::Capture(n) => seq![n@],
        PatNode::Elem(pe) => names_in_elem(pe),
    }
}

/// The placeholder names captured by a sequence of pattern nodes, in order.
pub open spec fn names_in_nodes(ps: Seq<PatNode>) -> Seq<Seq<char>>
    decreases ps,
{
    if ps.len() == 0 {
        Seq::empty()
    } else {
        names_in_node(ps[0]) + names_in_nodes(ps.subrange(1, ps.len() as int))
    }
}

/// The placeholder names captured by a pattern element: attribute
/// captures first, then the children's captures, in order.
pub open spec fn names_in_elem(pe: PatElem) -> Seq<Seq<char>>
    decreases pe,
{
    names_in_attrs(pe.attrs@) + names_in_nodes(pe.children@)
}

/// All placeholder names of a pattern, in capture order.
pub open spec fn capture_names(p: Pattern) -> Seq<Seq<char>> {
    names_in_elem(p.row)
}

/// A pattern is well formed when its placeholder names are unique, so
/// that one match binds each name at most once.
pub open spec fn pattern_wf(p: Pattern) -> bool {
    capture_names(p).no_duplicates()
}

} // verus!
