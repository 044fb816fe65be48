//! Structural pattern matching over the document tree.
//!
//! Matching locates, anywhere in the document, elements whose tag and
//! attributes fit a pattern's context, and then matches the pattern's row
//! skeleton against each child of such an element.  Within one element,
//! the skeleton's children must align with a subsequence of the
//! document children, in order, scanning greedily from the left; document
//! children that the skeleton does not mention are ignored.  Every
//! successful row match yields one [`MatchRow`], in document order.
//! A document in which nothing matches yields the empty sequence — that
//! is a normal outcome, not an error.

use vstd::prelude::*;
use crate::html::Attr;
use crate::html::Element;
use crate::html::Node;
use crate::html::attrs_view;
use crate::html::node_text;
use crate::html::text_of_node;
use crate::pattern::AttrPat;
use crate::pattern::PatAttr;
use crate::pattern::PatElem;
use crate::pattern::PatNode;
use crate::pattern::Pattern;
use crate::pattern::lemma_pat_nodes_view_index;
use crate::pattern::pat_attrs_view;
use crate::pattern::pat_elem_view;
use crate::pattern::pat_node_view;
use crate::pattern::pat_nodes_view;

verus! {

broadcast use
    vstd::seq::group_seq_axioms,
    vstd::std_specs::vec::group_vec_axioms,
    crate::pattern::lemma_pat_nodes_view_len;

/// One captured field of a match: placeholder name and captured text.
#[derive(Debug)]
pub struct Field {
    pub name: String,
    pub value: String,
}

/// One extracted occurrence of the row skeleton: the captured fields,
/// in capture order.
#[derive(Debug)]
pub struct MatchRow {
    pub fields: Vec<Field>,
}

/// The mathematical content of a sequence of captured fields: name and
/// value of each, as character sequences.
pub open spec fn fields_view(fs: Seq<Field>) -> Seq<(Seq<char>, Seq<char>)> {
    fs.map(|i: int, f: Field| (f.name@, f.value@))
}

impl View for MatchRow {
    type V = Seq<(Seq<char>, Seq<char>)>;

    open spec fn view(&self) -> Seq<(Seq<char>, Seq<char>)> {
        fields_view(self.fields@)
    }
}

/// The mathematical content of a sequence of match rows.
pub open spec fn rows_view(rs: Seq<MatchRow>) -> Seq<Seq<(Seq<char>, Seq<char>)>> {
    rs.map(|i: int, r: MatchRow| r@)
}

/// The text bound to the first occurrence of `name` in a row.
pub open spec fn row_lookup(r: Seq<(Seq<char>, Seq<char>)>, name: Seq<char>) -> Option<Seq<char>>
    decreases r,
{
    if r.len() == 0 {
        None
    } else if r[0].0 == name {
        Some(r[0].1)
    } else {
        row_lookup(r.subrange(1, r.len() as int), name)
    }
}

impl MatchRow {
    /// Returns the text captured under `name`, if this row bound it.
    pub fn get(&self, name: &str) -> (r: Option<&String>)
        ensures
            r matches Some(v) ==> row_lookup(self@, name@) == Some(v@),
            r is None ==> row_lookup(self@, name@) is None,
    {
        let key = String::from_str(name);
        let mut i: usize = 0;
        proof {
            assert(self@.subrange(0, self@.len() as int) =~= self@);
        }
        while i < self.fields.len()
            invariant
                i <= self.fields@.len(),
                self@.len() == self.fields@.len(),
                key@ == name@,
                row_lookup(self@, name@) == row_lookup(
                    self@.subrange(i as int, self@.len() as int),
                    name@,
                ),
            decreases self.fields@.len() - i,
        {
            proof {
                let cur = self@.subrange(i as int, self@.len() as int);
                assert(cur[0] == self@[i as int]);
                assert(self@[i as int] == (self.fields@[i as int].name@, self.fields@[i as int].value@));
                assert(cur.subrange(1, cur.len() as int) =~= self@.subrange(
                    i as int + 1,
                    self@.len() as int,
                ));
            }
            if self.fields[i].name == key {
                return Some(&self.fields[i].value);
            }
            i = i + 1;
        }
        proof {
            assert(self@.subrange(i as int, self@.len() as int) =~= Seq::<
                (Seq<char>, Seq<char>),
            >::empty());
        }
        None
    }
}

/// The value of the first attribute named `name`, if any.
pub open spec fn attr_lookup(attrs: Seq<Attr>, name: Seq<char>) -> Option<Seq<char>>
    decreases attrs,
{
    if attrs.len() == 0 {
        None
    } else if attrs[0].name@ == name {
        Some(attrs[0].value@)
    } else {
        attr_lookup(attrs.subrange(1, attrs.len() as int), name)
    }
}

/// Whether every attribute constraint is satisfied: a literal constraint
/// needs the attribute present with that exact value, a capture
/// constraint needs it present with any value.  Attributes the pattern
/// does not mention are ignored.
pub open spec fn attrs_match(ps: Seq<PatAttr>, attrs: Seq<Attr>) -> bool
    decreases ps,
{
    if ps.len() == 0 {
        true
    } else {
        (match attr_lookup(attrs, ps[0].name@) {
            Some(v) => match ps[0].value {
                AttrPat::Lit(t) => v == t@,
                AttrPat::Capture(_) => true,
            },
            None => false,
        }) && attrs_match(ps.subrange(1, ps.len() as int), attrs)
    }
}

/// The bindings contributed by attribute captures, in constraint order.
pub open spec fn attr_bindings(ps: Seq<PatAttr>, attrs: Seq<Attr>) -> Seq<(Seq<char>, Seq<char>)>
    decreases ps,
{
    if ps.len() == 0 {
        Seq::empty()
    } else {
        (match ps[0].value {
            AttrPat::Capture(n) => match attr_lookup(attrs, ps[0].name@) {
                Some(v) => seq![(n@, v)],
                None => Seq::empty(),
            },
            AttrPat::Lit(_) => Seq::empty(),
        }) + attr_bindings(ps.subrange(1, ps.len() as int), attrs)
    }
}

/// Matching one pattern node against one document node: a literal text
/// run must be that exact text; a text-capture placeholder accepts any
/// node and binds its character data; a fixed element must be an element
/// that matches structurally.
pub open spec fn match_pat_node(p: PatNode, d: Node) -> Option<Seq<(Seq<char>, Seq<char>)>>
    decreases d,
{
    match p {
        PatNode::Lit(t) => match d {
            Node::Text(s) => if s@ == t@ {
                Some(Seq::empty())
            } else {
                None
            },
            Node::Elem(_) => None,
        },
        PatNode::Capture(n) => Some(seq![(n@, text_of_node(d))]),
        PatNode::Elem(pe) => match d {
            Node::Elem(e) => match_elem(pe, e),
            Node::Text(_) => None,
        },
    }
}

/// Greedy, in-order alignment of the skeleton's children with a
/// subsequence of the document children: the first document child that
/// matches the current pattern child is taken, and document children
/// that match nothing are skipped.
pub open spec fn match_nodes(ps: Seq<PatNode>, ds: Seq<Node>) -> Option<
    Seq<(Seq<char>, Seq<char>)>,
>
    decreases ds,
{
    if ps.len() == 0 {
        Some(Seq::empty())
    } else if ds.len() == 0 {
        None
    } else {
        match match_pat_node(ps[0], ds[0]) {
            Some(b) => match match_nodes(
                ps.subrange(1, ps.len() as int),
                ds.subrange(1, ds.len() as int),
            ) {
                Some(rest) => Some(b + rest),
                None => None,
            },
            None => match_nodes(ps, ds.subrange(1, ds.len() as int)),
        }
    }
}

/// Matching a pattern element against a document element: equal tag,
/// satisfied attribute constraints, and aligned children.  The bindings
/// are the attribute captures followed by the children's captures.
pub open spec fn match_elem(pe: PatElem, e: Element) -> Option<Seq<(Seq<char>, Seq<char>)>>
    decreases e,
{
    if pe.tag@ == e.tag@ && attrs_match(pe.attrs@, e.attrs@) {
        match match_nodes(pe.children@, e.children@) {
            Some(b) => Some(attr_bindings(pe.attrs@, e.attrs@) + b),
            None => None,
        }
    } else {
        None
    }
}

/// Whether every context attribute is present with its exact value.
pub open spec fn lit_attrs_match(ps: Seq<Attr>, attrs: Seq<Attr>) -> bool
    decreases ps,
{
    if ps.len() == 0 {
        true
    } else {
        attr_lookup(attrs, ps[0].name@) == Some(ps[0].value@) && lit_attrs_match(
            ps.subrange(1, ps.len() as int),
            attrs,
        )
    }
}

/// Whether an element can host the pattern's rows.
pub open spec fn context_matches(p: Pattern, e: Element) -> bool {
    e.tag@ == p.context_tag@ && lit_attrs_match(p.context_attrs@, e.attrs@)
}

/// The row captured from one child of a context element, if the row
/// skeleton matches it.
pub open spec fn row_of_child(row: PatElem, d: Node) -> Option<Seq<(Seq<char>, Seq<char>)>> {
    match d {
        Node::Elem(e) => match_elem(row, e),
        Node::Text(_) => None,
    }
}

/// The rows captured from the children of one context element, one per
/// matching child, in document order.
pub open spec fn rows_of_children(row: PatElem, ds: Seq<Node>) -> Seq<
    Seq<(Seq<char>, Seq<char>)>,
>
    decreases ds,
{
    if ds.len() == 0 {
        Seq::empty()
    } else {
        (match row_of_child(row, ds[0]) {
            Some(b) => seq![b],
            None => Seq::empty(),
        }) + rows_of_children(row, ds.subrange(1, ds.len() as int))
    }
}

/// The rows found in one subtree, in document order: the rows of this
/// element if it is a matching context, then the rows found deeper in
/// its children.
pub open spec fn rows_in_node(p: Pattern, d: Node) -> Seq<Seq<(Seq<char>, Seq<char>)>>
    decreases d,
{
    match d {
        Node::Text(_) => Seq::empty(),
        Node::Elem(e) => (if context_matches(p, e) {
            rows_of_children(p.row, e.children@)
        } else {
            Seq::empty()
        }) + rows_in_nodes(p, e.children@),
    }
}

/// The rows found in a forest, in document order.
pub open spec fn rows_in_nodes(p: Pattern, ds: Seq<Node>) -> Seq<Seq<(Seq<char>, Seq<char>)>>
    decreases ds,
{
    if ds.len() == 0 {
        Seq::empty()
    } else {
        rows_in_node(p, ds[0]) + rows_in_nodes(p, ds.subrange(1, ds.len() as int))
    }
}

/// What matching a pattern against a document yields: all rows in
/// document order for a repeatable pattern, and at most the first row
/// otherwise.
pub open spec fn pattern_rows(p: Pattern, doc: Seq<Node>) -> Seq<Seq<(Seq<char>, Seq<char>)>> {
    let all = rows_in_nodes(p, doc);
    if p.repeat || all.len() == 0 {
        all
    } else {
        seq![all[0]]
    }
}

/// The content of an optional field vector, for relating executable
/// match results to the matching specification.
pub open spec fn opt_fields_view(r: Option<Vec<Field>>) -> Option<Seq<(Seq<char>, Seq<char>)>> {
    match r {
        Some(v) => Some(fields_view(v@)),
        None => None,
    }
}

/// Finds the first attribute named `name`.
fn attr_find<'a>(attrs: &'a Vec<Attr>, name: &String) -> (r: Option<&'a String>)
    ensures
        r matches Some(v) ==> attr_lookup(attrs@, name@) == Some(v@),
        r is None ==> attr_lookup(attrs@, name@) is None,
{
    let mut i: usize = 0;
    proof {
        assert(attrs@.subrange(0, attrs@.len() as int) =~= attrs@);
    }
    while i < attrs.len()
        invariant
            i <= attrs@.len(),
            attr_lookup(attrs@, name@) == attr_lookup(
                attrs@.subrange(i as int, attrs@.len() as int),
                name@,
            ),
        decreases attrs@.len() - i,
    {
        proof {
            let cur = attrs@.subrange(i as int, attrs@.len() as int);
            assert(cur[0] == attrs@[i as int]);
            assert(cur.subrange(1, cur.len() as int) =~= attrs@.subrange(
                i as int + 1,
                attrs@.len() as int,
            ));
        }
        if attrs[i].name == *name {
            return Some(&attrs[i].value);
        }
        i = i + 1;
    }
    proof {
        assert(attrs@.subrange(i as int, attrs@.len() as int) =~= Seq::<Attr>::empty());
    }
    None
}

/// Matches one pattern node against one document node.
fn exec_match_node(p: &PatNode, d: &Node) -> (r: Option<Vec<Field>>)
    ensures
        opt_fields_view(r) == match_pat_node(*p, *d),
    decreases *d,
{
    match p {
        PatNode::Lit(t) => {
            match d {
                Node::Text(s) => {
                    if *s == *t {
                        let r: Vec<Field> = Vec::new();
                        proof {
                            assert(fields_view(r@) =~= Seq::<(Seq<char>, Seq<char>)>::empty());
                        }
                        Some(r)
                    } else {
                        None
                    }
                },
                Node::Elem(_) => None,
            }
        },
        PatNode::Capture(n) => {
            let value = node_text(d);
            let mut r: Vec<Field> = Vec::new();
            r.push(Field { name: n.clone(), value });
            proof {
                assert(fields_view(r@) =~= seq![(n@, text_of_node(*d))]);
            }
            Some(r)
        },
        PatNode::Elem(pe) => {
            match d {
                Node::Elem(e) => exec_match_elem(pe, e),
                Node::Text(_) => None,
            }
        },
    }
}

/// Matches a pattern element against a document element.
fn exec_match_elem(pe: &PatElem, e: &Element) -> (r: Option<Vec<Field>>)
    ensures
        opt_fields_view(r) == match_elem(*pe, *e),
    decreases *e,
{
    if !(pe.tag == e.tag) {
        return None;
    }
    let mut acc: Vec<Field> = Vec::new();
    let mut ai: usize = 0;
    proof {
        assert(pe.attrs@.subrange(0, pe.attrs@.len() as int) =~= pe.attrs@);
        assert(fields_view(acc@) =~= Seq::<(Seq<char>, Seq<char>)>::empty());
        assert(fields_view(acc@) + attr_bindings(pe.attrs@, e.attrs@) =~= attr_bindings(
            pe.attrs@,
            e.attrs@,
        ));
    }
    while ai < pe.attrs.len()
        invariant
            ai <= pe.attrs@.len(),
            attrs_match(pe.attrs@, e.attrs@) == attrs_match(
                pe.attrs@.subrange(ai as int, pe.attrs@.len() as int),
                e.attrs@,
            ),
            attr_bindings(pe.attrs@, e.attrs@) == fields_view(acc@) + attr_bindings(
                pe.attrs@.subrange(ai as int, pe.attrs@.len() as int),
                e.attrs@,
            ),
        decreases pe.attrs@.len() - ai,
    {
        proof {
            let cur = pe.attrs@.subrange(ai as int, pe.attrs@.len() as int);
            assert(cur[0] == pe.attrs@[ai as int]);
            assert(cur.subrange(1, cur.len() as int) =~= pe.attrs@.subrange(
                ai as int + 1,
                pe.attrs@.len() as int,
            ));
        }
        let pa = &pe.attrs[ai];
        match attr_find(&e.attrs, &pa.name) {
            Some(v) => {
                match &pa.value {
                    AttrPat::Lit(t) => {
                        if !(*v == *t) {
                            return None;
                        }
                    },
                    AttrPat::Capture(n) => {
                        let ghost pre = acc@;
                        acc.push(Field { name: n.clone(), value: v.clone() });
                        proof {
                            assert(fields_view(acc@) =~= fields_view(pre) + seq![(n@, v@)]);
                            assert(fields_view(pre) + (seq![(n@, v@)] + attr_bindings(
                                pe.attrs@.subrange(ai as int + 1, pe.attrs@.len() as int),
                                e.attrs@,
                            )) =~= fields_view(acc@) + attr_bindings(
                                pe.attrs@.subrange(ai as int + 1, pe.attrs@.len() as int),
                                e.attrs@,
                            ));
                        }
                    },
                }
            },
            None => {
                return None;
            },
        }
        ai = ai + 1;
    }
    proof {
        assert(pe.attrs@.subrange(ai as int, pe.attrs@.len() as int) =~= Seq::<PatAttr>::empty());
        assert(attr_bindings(pe.attrs@, e.attrs@) =~= fields_view(acc@));
    }
    match exec_match_children(&pe.children, &e.children) {
        Some(mut v) => {
            let ghost pre = acc@;
            let ghost vv = v@;
            let mut out = acc;
            out.append(&mut v);
            proof {
                assert(fields_view(out@) =~= fields_view(pre) + fields_view(vv));
            }
            Some(out)
        },
        None => None,
    }
}

/// Aligns the skeleton's children greedily with a subsequence of the
/// document children.
fn exec_match_children(ps: &Vec<PatNode>, ds: &Vec<Node>) -> (r: Option<Vec<Field>>)
    ensures
        opt_fields_view(r) == match_nodes(ps@, ds@),
    decreases *ds,
{
    let mut acc: Vec<Field> = Vec::new();
    let mut pi: usize = 0;
    let mut di: usize = 0;
    proof {
        assert(ps@.subrange(0, ps@.len() as int) =~= ps@);
        assert(ds@.subrange(0, ds@.len() as int) =~= ds@);
        assert(fields_view(acc@) =~= Seq::<(Seq<char>, Seq<char>)>::empty());
        match match_nodes(ps@, ds@) {
            Some(b) => {
                assert(fields_view(acc@) + b =~= b);
            },
            None => {},
        }
    }
    while pi < ps.len()
        invariant
            pi <= ps@.len(),
            di <= ds@.len(),
            match_nodes(ps@, ds@) == (match match_nodes(
                ps@.subrange(pi as int, ps@.len() as int),
                ds@.subrange(di as int, ds@.len() as int),
            ) {
                Some(b) => Some(fields_view(acc@) + b),
                None => None::<Seq<(Seq<char>, Seq<char>)>>,
            }),
        decreases ps@.len() - pi + ds@.len() - di,
    {
        let ghost pcur = ps@.subrange(pi as int, ps@.len() as int);
        let ghost dcur = ds@.subrange(di as int, ds@.len() as int);
        proof {
            assert(pcur.len() > 0);
            assert(pcur[0] == ps@[pi as int]);
        }
        if di >= ds.len() {
            proof {
                assert(dcur.len() == 0);
                assert(match_nodes(pcur, dcur) is None);
            }
            return None;
        }
        proof {
            assert(dcur[0] == ds@[di as int]);
            assert(pcur.subrange(1, pcur.len() as int) =~= ps@.subrange(
                pi as int + 1,
                ps@.len() as int,
            ));
            assert(dcur.subrange(1, dcur.len() as int) =~= ds@.subrange(
                di as int + 1,
                ds@.len() as int,
            ));
        }
        match exec_match_node(&ps[pi], &ds[di]) {
            Some(mut v) => {
                let ghost pre = acc@;
                let ghost vv = v@;
                acc.append(&mut v);
                proof {
                    assert(fields_view(acc@) =~= fields_view(pre) + fields_view(vv));
                    let rest = match_nodes(
                        ps@.subrange(pi as int + 1, ps@.len() as int),
                        ds@.subrange(di as int + 1, ds@.len() as int),
                    );
                    match rest {
                        Some(b) => {
                            assert(fields_view(pre) + (fields_view(vv) + b) =~= fields_view(
                                acc@,
                            ) + b);
                        },
                        None => {},
                    }
                }
                pi = pi + 1;
                di = di + 1;
            },
            None => {
                di = di + 1;
            },
        }
    }
    proof {
        assert(ps@.subrange(pi as int, ps@.len() as int) =~= Seq::<PatNode>::empty());
        assert(match_nodes(
            ps@.subrange(pi as int, ps@.len() as int),
            ds@.subrange(di as int, ds@.len() as int),
        ) == Some(Seq::<(Seq<char>, Seq<char>)>::empty()));
        assert(fields_view(acc@) + Seq::<(Seq<char>, Seq<char>)>::empty() =~= fields_view(acc@));
    }
    Some(acc)
}

/// Whether an element can host the pattern's rows.
fn exec_context_matches(p: &Pattern, e: &Element) -> (b: bool)
    ensures
        b == context_matches(*p, *e),
{
    if !(e.tag == p.context_tag) {
        return false;
    }
    let mut i: usize = 0;
    proof {
        assert(p.context_attrs@.subrange(0, p.context_attrs@.len() as int) =~= p.context_attrs@);
    }
    while i < p.context_attrs.len()
        invariant
            i <= p.context_attrs@.len(),
            e.tag@ == p.context_tag@,
            lit_attrs_match(p.context_attrs@, e.attrs@) == lit_attrs_match(
                p.context_attrs@.subrange(i as int, p.context_attrs@.len() as int),
                e.attrs@,
            ),
        decreases p.context_attrs@.len() - i,
    {
        proof {
            let cur = p.context_attrs@.subrange(i as int, p.context_attrs@.len() as int);
            assert(cur[0] == p.context_attrs@[i as int]);
            assert(cur.subrange(1, cur.len() as int) =~= p.context_attrs@.subrange(
                i as int + 1,
                p.context_attrs@.len() as int,
            ));
        }
        let ca = &p.context_attrs[i];
        match attr_find(&e.attrs, &ca.name) {
            Some(v) => {
                if !(*v == ca.value) {
                    return false;
                }
            },
            None => {
                return false;
            },
        }
        i = i + 1;
    }
    proof {
        assert(p.context_attrs@.subrange(i as int, p.context_attrs@.len() as int)
            =~= Seq::<Attr>::empty());
    }
    true
}

/// Collects one row per matching child of a context element.
fn exec_rows_of_children(row: &PatElem, ds: &Vec<Node>) -> (rs: Vec<MatchRow>)
    ensures
        rows_view(rs@) == rows_of_children(*row, ds@),
{
    let mut out: Vec<MatchRow> = Vec::new();
    let mut i: usize = 0;
    proof {
        assert(ds@.subrange(0, ds@.len() as int) =~= ds@);
        assert(rows_view(out@) =~= Seq::<Seq<(Seq<char>, Seq<char>)>>::empty());
        assert(rows_view(out@) + rows_of_children(*row, ds@) =~= rows_of_children(*row, ds@));
    }
    while i < ds.len()
        invariant
            i <= ds@.len(),
            rows_of_children(*row, ds@) == rows_view(out@) + rows_of_children(
                *row,
                ds@.subrange(i as int, ds@.len() as int),
            ),
        decreases ds@.len() - i,
    {
        proof {
            let cur = ds@.subrange(i as int, ds@.len() as int);
            assert(cur[0] == ds@[i as int]);
            assert(cur.subrange(1, cur.len() as int) =~= ds@.subrange(
                i as int + 1,
                ds@.len() as int,
            ));
        }
        let ghost pre = out@;
        match &ds[i] {
            Node::Elem(e) => {
                match exec_match_elem(row, e) {
                    Some(v) => {
                        out.push(MatchRow { fields: v });
                    },
                    None => {},
                }
            },
            Node::Text(_) => {},
        }
        proof {
            let stepped = (match row_of_child(*row, ds@[i as int]) {
                Some(b) => seq![b],
                None => Seq::<Seq<(Seq<char>, Seq<char>)>>::empty(),
            });
            assert(rows_view(out@) =~= rows_view(pre) + stepped);
            assert(rows_view(pre) + (stepped + rows_of_children(
                *row,
                ds@.subrange(i as int + 1, ds@.len() as int),
            )) =~= rows_view(out@) + rows_of_children(
                *row,
                ds@.subrange(i as int + 1, ds@.len() as int),
            ));
        }
        i = i + 1;
    }
    proof {
        assert(ds@.subrange(i as int, ds@.len() as int) =~= Seq::<Node>::empty());
        assert(rows_view(out@) + Seq::<Seq<(Seq<char>, Seq<char>)>>::empty() =~= rows_view(out@));
    }
    out
}

/// Collects the rows found in one subtree.
fn exec_rows_in_node(p: &Pattern, d: &Node) -> (rs: Vec<MatchRow>)
    ensures
        rows_view(rs@) == rows_in_node(*p, *d),
    decreases *d,
{
    match d {
        Node::Text(_) => {
            let rs: Vec<MatchRow> = Vec::new();
            proof {
                assert(rows_view(rs@) =~= Seq::<Seq<(Seq<char>, Seq<char>)>>::empty());
            }
            rs
        },
        Node::Elem(e) => {
            let mut out: Vec<MatchRow> = Vec::new();
            if exec_context_matches(p, e) {
                out = exec_rows_of_children(&p.row, &e.children);
            } else {
                proof {
                    assert(rows_view(out@) =~= Seq::<Seq<(Seq<char>, Seq<char>)>>::empty());
                }
            }
            let ghost pre = out@;
            let mut deeper = exec_rows_in_nodes(p, &e.children);
            let ghost dv = deeper@;
            out.append(&mut deeper);
            proof {
                assert(rows_view(out@) =~= rows_view(pre) + rows_view(dv));
            }
            out
        },
    }
}

/// Collects the rows found in a forest, in document order.
fn exec_rows_in_nodes(p: &Pattern, ds: &Vec<Node>) -> (rs: Vec<MatchRow>)
    ensures
        rows_view(rs@) == rows_in_nodes(*p, ds@),
    decreases *ds,
{
    let mut out: Vec<MatchRow> = Vec::new();
    let mut i: usize = 0;
    proof {
        assert(ds@.subrange(0, ds@.len() as int) =~= ds@);
        assert(rows_view(out@) =~= Seq::<Seq<(Seq<char>, Seq<char>)>>::empty());
        assert(rows_view(out@) + rows_in_nodes(*p, ds@) =~= rows_in_nodes(*p, ds@));
    }
    while i < ds.len()
        invariant
            i <= ds@.len(),
            rows_in_nodes(*p, ds@) == rows_view(out@) + rows_in_nodes(
                *p,
                ds@.subrange(i as int, ds@.len() as int),
            ),
        decreases ds@.len() - i,
    {
        proof {
            let cur = ds@.subrange(i as int, ds@.len() as int);
            assert(cur[0] == ds@[i as int]);
            assert(cur.subrange(1, cur.len() as int) =~= ds@.subrange(
                i as int + 1,
                ds@.len() as int,
            ));
        }
        let ghost pre = out@;
        let mut piece = exec_rows_in_node(p, &ds[i]);
        let ghost pv = piece@;
        out.append(&mut piece);
        proof {
            assert(rows_view(out@) =~= rows_view(pre) + rows_view(pv));
            assert(rows_view(pre) + (rows_view(pv) + rows_in_nodes(
                *p,
                ds@.subrange(i as int + 1, ds@.len() as int),
            )) =~= rows_view(out@) + rows_in_nodes(
                *p,
                ds@.subrange(i as int + 1, ds@.len() as int),
            ));
        }
        i = i + 1;
    }
    proof {
        assert(ds@.subrange(i as int, ds@.len() as int) =~= Seq::<Node>::empty());
        assert(rows_view(out@) + Seq::<Seq<(Seq<char>, Seq<char>)>>::empty() =~= rows_view(out@));
    }
    out
}

/// Matches a pattern against a document: all matching rows in document
/// order for a repeatable pattern, at most the first row otherwise.  A
/// document with no matching subtree yields the empty vector; that is a
/// normal outcome, not an error.
pub fn match_document(p: &Pattern, doc: &Vec<Node>) -> (rows: Vec<MatchRow>)
    ensures
        rows_view(rows@) == pattern_rows(*p, doc@),
{
    let mut all = exec_rows_in_nodes(p, doc);
    if !p.repeat && all.len() > 1 {
        let ghost pre = all@;
        all.truncate(1);
        proof {
            assert(all@ =~= pre.subrange(0, 1));
            assert(rows_view(all@) =~= seq![rows_view(pre)[0]]);
        }
    }
    all
}

/// How many children of a context element the row skeleton matches.
pub open spec fn count_matching(row: PatElem, ds: Seq<Node>) -> nat
    decreases ds,
{
    if ds.len() == 0 {
        0
    } else {
        (if row_of_child(row, ds[0]) is Some {
            1nat
        } else {
            0nat
        }) + count_matching(row, ds.subrange(1, ds.len() as int))
    }
}

/// Law: matching is deterministic.  The rows a pattern yields are a
/// function of the pattern and the document alone, so matching the same
/// pattern against the same document twice yields identical ordered row
/// sequences; [`match_document`] ties every call to [`pattern_rows`].
pub proof fn lemma_match_idempotent(
    p: Pattern,
    doc: Seq<Node>,
    r1: Seq<Seq<(Seq<char>, Seq<char>)>>,
    r2: Seq<Seq<(Seq<char>, Seq<char>)>>,
)
    requires
        r1 == pattern_rows(p, doc),
        r2 == pattern_rows(p, doc),
    ensures
        r1 == r2,
{
}

/// Law: completeness.  The children of a context element yield exactly
/// one row per child that the row skeleton matches: no matching child is
/// skipped and no row is invented.
pub proof fn lemma_rows_of_children_complete(row: PatElem, ds: Seq<Node>)
    ensures
        rows_of_children(row, ds).len() == count_matching(row, ds),
    decreases ds,
{
    if ds.len() == 0 {
    } else {
        lemma_rows_of_children_complete(row, ds.subrange(1, ds.len() as int));
    }
}

/// Law: document order.  The rows of a forest split anywhere are the
/// rows of the left part followed by the rows of the right part, so rows
/// come out in the order their children stand in the document.
pub proof fn lemma_rows_of_children_concat(row: PatElem, a: Seq<Node>, b: Seq<Node>)
    ensures
        rows_of_children(row, a + b) == rows_of_children(row, a) + rows_of_children(row, b),
    decreases a,
{
    if a.len() == 0 {
        assert(a + b =~= b);
        assert(rows_of_children(row, a) + rows_of_children(row, b) =~= rows_of_children(row, b));
    } else {
        let t = a.subrange(1, a.len() as int);
        assert((a + b).subrange(1, (a + b).len() as int) =~= t + b);
        assert((a + b)[0] == a[0]);
        lemma_rows_of_children_concat(row, t, b);
        let head = (match row_of_child(row, a[0]) {
            Some(bd) => seq![bd],
            None => Seq::<Seq<(Seq<char>, Seq<char>)>>::empty(),
        });
        assert(head + (rows_of_children(row, t) + rows_of_children(row, b)) =~= (head
            + rows_of_children(row, t)) + rows_of_children(row, b));
    }
}

/// Whether some subtree of `d` is a matching context with at least one
/// matching row child.
pub open spec fn has_row_in_node(p: Pattern, d: Node) -> bool
    decreases d,
{
    match d {
        Node::Text(_) => false,
        Node::Elem(e) => (context_matches(p, e) && count_matching(p.row, e.children@) > 0)
            || has_row_in_nodes(p, e.children@),
    }
}

/// Whether some subtree of the forest yields a row.
pub open spec fn has_row_in_nodes(p: Pattern, ds: Seq<Node>) -> bool
    decreases ds,
{
    ds.len() > 0 && (has_row_in_node(p, ds[0]) || has_row_in_nodes(
        p,
        ds.subrange(1, ds.len() as int),
    ))
}

proof fn lemma_no_row_node(p: Pattern, d: Node)
    requires
        !has_row_in_node(p, d),
    ensures
        rows_in_node(p, d) == Seq::<Seq<(Seq<char>, Seq<char>)>>::empty(),
    decreases d,
{
    match d {
        Node::Text(_) => {},
        Node::Elem(e) => {
            lemma_no_row_nodes(p, e.children@);
            if context_matches(p, e) {
                lemma_rows_of_children_complete(p.row, e.children@);
                assert(rows_of_children(p.row, e.children@) =~= Seq::<
                    Seq<(Seq<char>, Seq<char>)>,
                >::empty());
            }
            assert(rows_in_node(p, d) =~= Seq::<Seq<(Seq<char>, Seq<char>)>>::empty());
        },
    }
}

proof fn lemma_no_row_nodes(p: Pattern, ds: Seq<Node>)
    requires
        !has_row_in_nodes(p, ds),
    ensures
        rows_in_nodes(p, ds) == Seq::<Seq<(Seq<char>, Seq<char>)>>::empty(),
    decreases ds,
{
    if ds.len() == 0 {
    } else {
        lemma_no_row_node(p, ds[0]);
        lemma_no_row_nodes(p, ds.subrange(1, ds.len() as int));
        assert(rows_in_nodes(p, ds) =~= Seq::<Seq<(Seq<char>, Seq<char>)>>::empty());
    }
}

/// Law: negative case.  A document in which no subtree is a matching
/// context with a matching row child yields the empty row sequence —
/// matching reports "nothing found" as a value, never as an error.
pub proof fn lemma_no_match_empty(p: Pattern, doc: Seq<Node>)
    requires
        !has_row_in_nodes(p, doc),
    ensures
        pattern_rows(p, doc) == Seq::<Seq<(Seq<char>, Seq<char>)>>::empty(),
{
    lemma_no_row_nodes(p, doc);
}

/// Law: completeness at the document level.  For a repeatable pattern
/// and a document consisting of one matching context element, with no
/// further context anywhere below its children, matching yields exactly
/// the rows of that element's children: one row per structurally
/// matching child, in document order.
pub proof fn lemma_matcher_completeness(p: Pattern, e: Element)
    requires
        p.repeat,
        context_matches(p, e),
        !has_row_in_nodes(p, e.children@),
    ensures
        pattern_rows(p, seq![Node::Elem(e)]) == rows_of_children(p.row, e.children@),
        pattern_rows(p, seq![Node::Elem(e)]).len() == count_matching(p.row, e.children@),
{
    let doc = seq![Node::Elem(e)];
    lemma_no_row_nodes(p, e.children@);
    assert(doc.subrange(1, doc.len() as int) =~= Seq::<Node>::empty());
    assert(rows_in_nodes(p, doc.subrange(1, doc.len() as int)) =~= Seq::<
        Seq<(Seq<char>, Seq<char>)>,
    >::empty());
    assert(rows_in_node(p, doc[0]) =~= rows_of_children(p.row, e.children@));
    assert(rows_in_nodes(p, doc) =~= rows_of_children(p.row, e.children@));
    lemma_rows_of_children_complete(p.row, e.children@);
}

proof fn lemma_cong_attrs(ps1: Seq<PatAttr>, ps2: Seq<PatAttr>, attrs: Seq<Attr>)
    requires
        pat_attrs_view(ps1) == pat_attrs_view(ps2),
    ensures
        attrs_match(ps1, attrs) == attrs_match(ps2, attrs),
        attr_bindings(ps1, attrs) == attr_bindings(ps2, attrs),
    decreases ps1,
{
    assert(pat_attrs_view(ps1).len() == ps1.len());
    assert(pat_attrs_view(ps2).len() == ps2.len());
    if ps1.len() == 0 {
        assert(attr_bindings(ps1, attrs) =~= attr_bindings(ps2, attrs));
    } else {
        assert(pat_attrs_view(ps1)[0] == ps1[0]@);
        assert(pat_attrs_view(ps2)[0] == ps2[0]@);
        let t1 = ps1.subrange(1, ps1.len() as int);
        let t2 = ps2.subrange(1, ps2.len() as int);
        assert(pat_attrs_view(t1) =~= pat_attrs_view(ps1).subrange(1, ps1.len() as int));
        assert(pat_attrs_view(t2) =~= pat_attrs_view(ps2).subrange(1, ps2.len() as int));
        lemma_cong_attrs(t1, t2, attrs);
        match (ps1[0].value, ps2[0].value) {
            (AttrPat::Lit(a), AttrPat::Lit(b)) => {
                assert(a@ == b@);
            },
            (AttrPat::Capture(a), AttrPat::Capture(b)) => {
                assert(a@ == b@);
            },
            (AttrPat::Lit(_), AttrPat::Capture(_)) => {
                assert(false);
            },
            (AttrPat::Capture(_), AttrPat::Lit(_)) => {
                assert(false);
            },
        }
    }
}

proof fn lemma_cong_match_node(p1: PatNode, p2: PatNode, d: Node)
    requires
        pat_node_view(p1) == pat_node_view(p2),
    ensures
        match_pat_node(p1, d) == match_pat_node(p2, d),
    decreases d,
{
    match (p1, p2) {
        (PatNode::Elem(pe1), PatNode::Elem(pe2)) => {
            match d {
                Node::Elem(e) => {
                    lemma_cong_match_elem(pe1, pe2, e);
                },
                Node::Text(_) => {},
            }
        },
        _ => {},
    }
}

proof fn lemma_cong_match_nodes(ps1: Seq<PatNode>, ps2: Seq<PatNode>, ds: Seq<Node>)
    requires
        pat_nodes_view(ps1) == pat_nodes_view(ps2),
    ensures
        match_nodes(ps1, ds) == match_nodes(ps2, ds),
    decreases ds,
{
    if ps1.len() == 0 || ds.len() == 0 {
    } else {
        lemma_pat_nodes_view_index(ps1, 0);
        lemma_pat_nodes_view_index(ps2, 0);
        lemma_cong_match_node(ps1[0], ps2[0], ds[0]);
        let t1 = ps1.subrange(1, ps1.len() as int);
        let t2 = ps2.subrange(1, ps2.len() as int);
        assert forall|i: int| 0 <= i < t1.len() implies pat_nodes_view(t1)[i] == pat_nodes_view(
            t2,
        )[i] by {
            lemma_pat_nodes_view_index(t1, i);
            lemma_pat_nodes_view_index(t2, i);
            lemma_pat_nodes_view_index(ps1, i + 1);
            lemma_pat_nodes_view_index(ps2, i + 1);
        }
        assert(pat_nodes_view(t1) =~= pat_nodes_view(t2));
        lemma_cong_match_nodes(t1, t2, ds.subrange(1, ds.len() as int));
        lemma_cong_match_nodes(ps1, ps2, ds.subrange(1, ds.len() as int));
    }
}

proof fn lemma_cong_match_elem(pe1: PatElem, pe2: PatElem, e: Element)
    requires
        pat_elem_view(pe1) == pat_elem_view(pe2),
    ensures
        match_elem(pe1, e) == match_elem(pe2, e),
    decreases e,
{
    lemma_cong_attrs(pe1.attrs@, pe2.attrs@, e.attrs@);
    lemma_cong_match_nodes(pe1.children@, pe2.children@, e.children@);
}

proof fn lemma_cong_lit_attrs(c1: Seq<Attr>, c2: Seq<Attr>, attrs: Seq<Attr>)
    requires
        attrs_view(c1) == attrs_view(c2),
    ensures
        lit_attrs_match(c1, attrs) == lit_attrs_match(c2, attrs),
    decreases c1,
{
    assert(attrs_view(c1).len() == c1.len());
    assert(attrs_view(c2).len() == c2.len());
    if c1.len() > 0 {
        assert(attrs_view(c1)[0] == c1[0]@);
        assert(attrs_view(c2)[0] == c2[0]@);
        let t1 = c1.subrange(1, c1.len() as int);
        let t2 = c2.subrange(1, c2.len() as int);
        assert(attrs_view(t1) =~= attrs_view(c1).subrange(1, c1.len() as int));
        assert(attrs_view(t2) =~= attrs_view(c2).subrange(1, c2.len() as int));
        lemma_cong_lit_attrs(t1, t2, attrs);
    }
}

proof fn lemma_cong_rows_of_children(r1: PatElem, r2: PatElem, ds: Seq<Node>)
    requires
        pat_elem_view(r1) == pat_elem_view(r2),
    ensures
        rows_of_children(r1, ds) == rows_of_children(r2, ds),
    decreases ds,
{
    if ds.len() > 0 {
        match ds[0] {
            Node::Elem(e) => {
                lemma_cong_match_elem(r1, r2, e);
            },
            Node::Text(_) => {},
        }
        lemma_cong_rows_of_children(r1, r2, ds.subrange(1, ds.len() as int));
    }
}

proof fn lemma_cong_rows_in_node(p1: Pattern, p2: Pattern, d: Node)
    requires
        p1@ == p2@,
    ensures
        rows_in_node(p1, d) == rows_in_node(p2, d),
    decreases d,
{
    match d {
        Node::Text(_) => {},
        Node::Elem(e) => {
            lemma_cong_lit_attrs(p1.context_attrs@, p2.context_attrs@, e.attrs@);
            assert(context_matches(p1, e) == context_matches(p2, e));
            if context_matches(p1, e) {
                lemma_cong_rows_of_children(p1.row, p2.row, e.children@);
            }
            lemma_cong_rows_in_nodes(p1, p2, e.children@);
        },
    }
}

proof fn lemma_cong_rows_in_nodes(p1: Pattern, p2: Pattern, ds: Seq<Node>)
    requires
        p1@ == p2@,
    ensures
        rows_in_nodes(p1, ds) == rows_in_nodes(p2, ds),
    decreases ds,
{
    if ds.len() > 0 {
        lemma_cong_rows_in_node(p1, p2, ds[0]);
        lemma_cong_rows_in_nodes(p1, p2, ds.subrange(1, ds.len() as int));
    }
}

/// Law: matching depends only on a pattern's mathematical value.  Two
/// patterns with the same view — in particular, two patterns built from
/// one skeleton — yield the same rows on every document.
pub proof fn lemma_rows_depend_on_view(p1: Pattern, p2: Pattern, doc: Seq<Node>)
    requires
        p1@ == p2@,
    ensures
        pattern_rows(p1, doc) == pattern_rows(p2, doc),
{
    lemma_cong_rows_in_nodes(p1, p2, doc);
}

} // verus!
