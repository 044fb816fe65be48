//! A minimal document tree for well-formed-enough HTML.
//!
//! The extraction pipeline does not need a general HTML parser: the pages
//! it reads are small fixed templates.  A document is a forest of nodes;
//! a node is either a text run or an element with a tag name, attributes
//! and children.

use vstd::prelude::*;

verus! {

broadcast use vstd::seq::group_seq_axioms, vstd::std_specs::vec::group_vec_axioms;

/// One attribute of an element, as written in the markup.
#[derive(Debug)]
pub struct Attr {
    pub name: String,
    pub value: String,
}

/// The mathematical content of an attribute.
#[verifier::ext_equal]
pub struct AttrV {
    pub name: Seq<char>,
    pub value: Seq<char>,
}

impl View for Attr {
    type V = AttrV;

    open spec fn view(&self) -> AttrV {
        AttrV { name: self.name@, value: self.value@ }
    }
}

/// The mathematical content of a sequence of attributes.
pub open spec fn attrs_view(s: Seq<Attr>) -> Seq<AttrV> {
    s.map(|i: int, a: Attr| a@)
}

/// A node of the document tree.
#[derive(Debug)]
pub enum Node {
    /// A run of character data.
    Text(String),
    /// An element with its attributes and children.
    Elem(Element),
}

/// An element: tag name, attributes and child nodes, in document order.
#[derive(Debug)]
pub struct Element {
    pub tag: String,
    pub attrs: Vec<Attr>,
    pub children: Vec<Node>,
}

/// The character data of a node: a text run itself, or the text of an
/// element's descendants concatenated in document order.
pub open spec fn text_of_node(n: Node) -> Seq<char>
    decreases n,
{
    match n {
        Node::Text(s) => s@,
        Node::Elem(e) => text_of_nodes(e.children@),
    }
}

/// The concatenated character data of a forest, in document order.
pub open spec fn text_of_nodes(ns: Seq<Node>) -> Seq<char>
    decreases ns,
{
    if ns.len() == 0 {
        Seq::empty()
    } else {
        text_of_node(ns[0]) + text_of_nodes(ns.subrange(1, ns.len() as int))
    }
}

/// Returns the concatenated character data under `n`.
pub fn node_text(n: &Node) -> (r: String)
    ensures
        r@ == text_of_node(*n),
    decreases *n,
{
    match n {
        Node::Text(s) => s.clone(),
        Node::Elem(e) => nodes_text(&e.children),
    }
}

/// Returns the concatenated character data of a forest.
pub fn nodes_text(ns: &Vec<Node>) -> (r: String)
    ensures
        r@ == text_of_nodes(ns@),
    decreases *ns,
{
    let mut out = String::new();
    let mut i: usize = 0;
    proof {
        assert(ns@.subrange(0, ns@.len() as int) =~= ns@);
        assert(out@ + text_of_nodes(ns@) =~= text_of_nodes(ns@));
    }
    while i < ns.len()
        invariant
            i <= ns@.len(),
            text_of_nodes(ns@) == out@ + text_of_nodes(ns@.subrange(i as int, ns@.len() as int)),
        decreases ns@.len() - i,
    {
        proof {
            let cur = ns@.subrange(i as int, ns@.len() as int);
            assert(cur[0] == ns@[i as int]);
            assert(cur.subrange(1, cur.len() as int) =~= ns@.subrange(
                i as int + 1,
                ns@.len() as int,
            ));
        }
        let piece = node_text(&ns[i]);
        let ghost pre = out@;
        out.append(piece.as_str());
        proof {
            assert(pre + (piece@ + text_of_nodes(
                ns@.subrange(i as int + 1, ns@.len() as int),
            )) =~= out@ + text_of_nodes(ns@.subrange(i as int + 1, ns@.len() as int)));
        }
        i = i + 1;
    }
    proof {
        assert(ns@.subrange(i as int, ns@.len() as int) =~= Seq::<Node>::empty());
        assert(out@ + Seq::<char>::empty() =~= out@);
    }
    out
}

} // verus!
