//! The five known tables: their patterns, their source pages, and the
//! extraction step shared by all of them.

use vstd::prelude::*;
use crate::html::Attr;
use crate::html::AttrV;
use crate::html::Node;
use crate::html::attrs_view;
use crate::matcher::MatchRow;
use crate::matcher::lemma_rows_depend_on_view;
use crate::matcher::match_document;
use crate::matcher::pattern_rows;
use crate::matcher::row_lookup;
use crate::matcher::rows_view;
use crate::pattern::AttrPat;
use crate::pattern::AttrPatV;
use crate::pattern::PatAttr;
use crate::pattern::PatAttrV;
use crate::pattern::PatElem;
use crate::pattern::PatElemV;
use crate::pattern::PatNode;
use crate::pattern::PatNodeV;
use crate::pattern::Pattern;
use crate::pattern::PatternV;
use crate::pattern::lemma_pat_nodes_view_push;
use crate::pattern::pat_attrs_view;
use crate::pattern::pat_node_view;
use crate::pattern::pat_nodes_view;
use crate::pattern::capture_names;
use crate::pattern::names_in_attrs;
use crate::pattern::names_in_elem;
use crate::pattern::names_in_node;
use crate::pattern::names_in_nodes;
use crate::pattern::pattern_wf;

verus! {

broadcast use
    vstd::seq::group_seq_axioms,
    vstd::std_specs::vec::group_vec_axioms,
    crate::pattern::lemma_pat_nodes_view_len,
    crate::pattern::lemma_pat_nodes_view_index;

/// The table types this library knows how to extract.
#[derive(Debug, Clone, Copy, PartialEq, Eq, Structural)]
pub enum TableType {
    ChinaExportBovine,
    CattlePrice,
    FatOxPrices,
    FatCowPrices,
    FatHeiferPrices,
}

/// Extraction failed because the pattern matched nothing: the page's
/// markup no longer holds the expected table.
#[derive(Debug, PartialEq, Eq, Structural)]
pub struct TableError;

impl TableError {
    /// A short description of the failure, for reporting.
    pub fn message(&self) -> (s: String)
        ensures
            s@ == "Failed to get table"@,
    {
        String::from_str("Failed to get table")
    }
}

/// The placeholder names a table type's pattern captures, in order.
pub open spec fn expected_captures(t: TableType) -> Seq<Seq<char>> {
    match t {
        TableType::ChinaExportBovine => seq!["state"@, "gross_price"@, "net_price"@],
        TableType::CattlePrice => seq![
            "region"@,
            "price_today"@,
            "price_yesterday"@,
            "price_change"@,
            "market_indicator"@,
        ],
        TableType::FatOxPrices => seq![
            "state"@,
            "cash_price"@,
            "price_30_days"@,
            "market_indicator"@,
            "differential"@,
            "funrural_discount_cash"@,
            "funrural_discount_30_days"@,
            "senar_contribution_cash"@,
            "senar_contribution_30_days"@,
        ],
        TableType::FatCowPrices | TableType::FatHeiferPrices => seq![
            "state"@,
            "cash_price"@,
            "price_30_days"@,
            "pointer"@,
            "funrural_discount_cash"@,
            "funrural_discount_30_days"@,
            "senar_contribution_cash"@,
            "senar_contribution_30_days"@,
        ],
    }
}

/// The skeleton of a cell holding one text capture.
pub open spec fn td_capture_v(name: Seq<char>) -> PatElemV {
    PatElemV { tag: "td"@, attrs: Seq::empty(), children: seq![PatNodeV::Capture(name)] }
}

/// The skeleton of a cell the pattern leaves unconstrained.
pub open spec fn td_plain_v() -> PatElemV {
    PatElemV { tag: "td"@, attrs: Seq::empty(), children: Seq::empty() }
}

/// The skeleton of an image whose `src` attribute is captured.
pub open spec fn img_v(src: Seq<char>) -> PatElemV {
    PatElemV {
        tag: "img"@,
        attrs: seq![PatAttrV { name: "src"@, value: AttrPatV::Capture(src) }],
        children: Seq::empty(),
    }
}

/// The skeleton of a cell holding only a captured direction image.
pub open spec fn td_img_v(src: Seq<char>) -> PatElemV {
    PatElemV { tag: "td"@, attrs: Seq::empty(), children: seq![PatNodeV::Elem(img_v(src))] }
}

/// The skeleton of a cell holding a text capture and then a captured
/// direction image.
pub open spec fn td_text_img_v(text: Seq<char>, src: Seq<char>) -> PatElemV {
    PatElemV {
        tag: "td"@,
        attrs: Seq::empty(),
        children: seq![PatNodeV::Capture(text), PatNodeV::Elem(img_v(src))],
    }
}

/// The skeleton of a row, optionally constrained to `class="conteudo"`.
pub open spec fn row_v(with_class: bool, children: Seq<PatNodeV>) -> PatElemV {
    PatElemV {
        tag: "tr"@,
        attrs: if with_class {
            seq![PatAttrV { name: "class"@, value: AttrPatV::Lit("conteudo"@) }]
        } else {
            Seq::empty()
        },
        children,
    }
}

/// The whole pattern of a table type, as a mathematical value: the
/// context element, the row skeleton cell by cell, and repeatability.
pub open spec fn pattern_spec(t: TableType) -> PatternV {
    match t {
        TableType::ChinaExportBovine => PatternV {
            context_tag: "table"@,
            context_attrs: seq![
                AttrV { name: "cellpadding"@, value: "0"@ },
                AttrV { name: "cellspacing"@, value: "0"@ },
                AttrV { name: "width"@, value: "660px"@ },
            ],
            row: row_v(
                true,
                seq![
                    PatNodeV::Elem(td_capture_v("state"@)),
                    PatNodeV::Elem(td_capture_v("gross_price"@)),
                    PatNodeV::Elem(td_capture_v("net_price"@)),
                ],
            ),
            repeat: true,
        },
        TableType::CattlePrice => PatternV {
            context_tag: "table"@,
            context_attrs: Seq::empty(),
            row: row_v(
                true,
                seq![
                    PatNodeV::Elem(td_capture_v("region"@)),
                    PatNodeV::Elem(td_capture_v("price_today"@)),
                    PatNodeV::Elem(td_capture_v("price_yesterday"@)),
                    PatNodeV::Elem(td_text_img_v("price_change"@, "market_indicator"@)),
                ],
            ),
            repeat: true,
        },
        TableType::FatOxPrices => PatternV {
            context_tag: "table"@,
            context_attrs: seq![
                AttrV { name: "border"@, value: "0"@ },
                AttrV { name: "cellpadding"@, value: "0"@ },
                AttrV { name: "cellspacing"@, value: "0"@ },
                AttrV { name: "width"@, value: "660"@ },
                AttrV { name: "style"@, value: "margin-top: 10px"@ },
            ],
            row: row_v(
                true,
                seq![
                    PatNodeV::Elem(td_capture_v("state"@)),
                    PatNodeV::Elem(td_capture_v("cash_price"@)),
                    PatNodeV::Elem(td_capture_v("price_30_days"@)),
                    PatNodeV::Elem(td_img_v("market_indicator"@)),
                    PatNodeV::Elem(td_capture_v("differential"@)),
                    PatNodeV::Elem(td_capture_v("funrural_discount_cash"@)),
                    PatNodeV::Elem(td_capture_v("funrural_discount_30_days"@)),
                    PatNodeV::Elem(td_capture_v("senar_contribution_cash"@)),
                    PatNodeV::Elem(td_plain_v()),
                    PatNodeV::Elem(td_capture_v("senar_contribution_30_days"@)),
                    PatNodeV::Elem(td_plain_v()),
                ],
            ),
            repeat: true,
        },
        TableType::FatCowPrices | TableType::FatHeiferPrices => PatternV {
            context_tag: "table"@,
            context_attrs: Seq::empty(),
            row: row_v(
                false,
                seq![
                    PatNodeV::Elem(td_capture_v("state"@)),
                    PatNodeV::Elem(td_capture_v("cash_price"@)),
                    PatNodeV::Elem(td_capture_v("price_30_days"@)),
                    PatNodeV::Elem(td_img_v("pointer"@)),
                    PatNodeV::Elem(td_capture_v("funrural_discount_cash"@)),
                    PatNodeV::Elem(td_capture_v("funrural_discount_30_days"@)),
                    PatNodeV::Elem(td_capture_v("senar_contribution_cash"@)),
                    PatNodeV::Elem(td_plain_v()),
                    PatNodeV::Elem(td_capture_v("senar_contribution_30_days"@)),
                    PatNodeV::Elem(td_plain_v()),
                ],
            ),
            repeat: true,
        },
    }
}

/// Law: the fat-cow and fat-heifer tables share one skeleton, so their
/// patterns are one mathematical value.
pub proof fn lemma_cow_heifer_same_pattern()
    ensures
        pattern_spec(TableType::FatCowPrices) == pattern_spec(TableType::FatHeiferPrices),
{
}

/// Law: the fat-cow and fat-heifer patterns match alike — on every
/// document they yield the same rows, since both patterns carry the one
/// shared skeleton and matching depends only on a pattern's value.
pub proof fn lemma_cow_heifer_match_alike(p_cow: Pattern, p_heifer: Pattern, doc: Seq<Node>)
    requires
        p_cow@ == pattern_spec(TableType::FatCowPrices),
        p_heifer@ == pattern_spec(TableType::FatHeiferPrices),
    ensures
        pattern_rows(p_cow, doc) == pattern_rows(p_heifer, doc),
{
    lemma_cow_heifer_same_pattern();
    lemma_rows_depend_on_view(p_cow, p_heifer, doc);
}

/// How many cells the row skeleton of a table type has.
pub open spec fn row_cell_count(t: TableType) -> nat {
    match t {
        TableType::ChinaExportBovine => 3,
        TableType::CattlePrice => 4,
        TableType::FatOxPrices => 11,
        TableType::FatCowPrices | TableType::FatHeiferPrices => 10,
    }
}

/// How many attributes the context element of a table type must carry.
pub open spec fn context_attr_count(t: TableType) -> nat {
    match t {
        TableType::ChinaExportBovine => 3,
        TableType::FatOxPrices => 5,
        TableType::CattlePrice | TableType::FatCowPrices | TableType::FatHeiferPrices => 0,
    }
}

/// The page a table type is published on.  Two table types share one
/// page, which carries both tables.
pub open spec fn source_url_spec(t: TableType) -> Seq<char> {
    match t {
        TableType::ChinaExportBovine | TableType::FatOxPrices => {
            "https://www.scotconsultoria.com.br/cotacoes/boi-gordo/?ref=smn"@
        },
        TableType::CattlePrice => {
            "https://www.scotconsultoria.com.br/cotacoes/indicadores/?ref=smn"@
        },
        TableType::FatCowPrices => {
            "https://www.scotconsultoria.com.br/cotacoes/vaca-gorda/?ref=smn"@
        },
        TableType::FatHeiferPrices => {
            "https://www.scotconsultoria.com.br/cotacoes/novilha/?ref=smn"@
        },
    }
}

/// A `td` holding one text capture.
fn pat_capture_td(name: &str) -> (td: PatElem)
    ensures
        names_in_elem(td) == seq![name@],
        td@ == td_capture_v(name@),
{
    let cap = String::from_str(name);
    let mut children: Vec<PatNode> = Vec::new();
    children.push(PatNode::Capture(cap));
    let td = PatElem { tag: String::from_str("td"), attrs: Vec::new(), children };
    proof {
        assert(names_in_attrs(td.attrs@) =~= Seq::<Seq<char>>::empty());
        assert(names_in_node(td.children@[0]) == seq![name@]);
        assert(td.children@.subrange(1, 1) =~= Seq::<PatNode>::empty());
        assert(names_in_nodes(Seq::<PatNode>::empty()) =~= Seq::<Seq<char>>::empty());
        assert(names_in_nodes(td.children@) =~= seq![name@]);
        assert(names_in_elem(td) =~= seq![name@]);
        assert(pat_attrs_view(td.attrs@) =~= Seq::<PatAttrV>::empty());
        assert(pat_nodes_view(Seq::<PatNode>::empty()) =~= Seq::<PatNodeV>::empty());
        assert(pat_nodes_view(td.children@) =~~= seq![PatNodeV::Capture(name@)]);
        assert(td@ =~~= td_capture_v(name@));
    }
    td
}

/// A `td` the pattern leaves unconstrained.
fn pat_plain_td() -> (td: PatElem)
    ensures
        names_in_elem(td) == Seq::<Seq<char>>::empty(),
        td@ == td_plain_v(),
{
    let td = PatElem {
        tag: String::from_str("td"),
        attrs: Vec::new(),
        children: Vec::new(),
    };
    proof {
        assert(names_in_attrs(td.attrs@) =~= Seq::<Seq<char>>::empty());
        assert(names_in_nodes(td.children@) =~= Seq::<Seq<char>>::empty());
        assert(names_in_elem(td) =~= Seq::<Seq<char>>::empty());
        assert(pat_attrs_view(td.attrs@) =~= Seq::<PatAttrV>::empty());
        assert(pat_nodes_view(td.children@) =~= Seq::<PatNodeV>::empty());
        assert(td@ =~~= td_plain_v());
    }
    td
}

/// An `img` whose `src` attribute is captured.
fn pat_img(src_name: &str) -> (img: PatElem)
    ensures
        names_in_elem(img) == seq![src_name@],
        img@ == img_v(src_name@),
{
    let cap = String::from_str(src_name);
    let mut attrs: Vec<PatAttr> = Vec::new();
    attrs.push(PatAttr { name: String::from_str("src"), value: AttrPat::Capture(cap) });
    let img = PatElem { tag: String::from_str("img"), attrs, children: Vec::new() };
    proof {
        assert(img.attrs@[0].value is Capture);
        assert(img.attrs@.subrange(1, 1) =~= Seq::<PatAttr>::empty());
        assert(names_in_attrs(Seq::<PatAttr>::empty()) =~= Seq::<Seq<char>>::empty());
        assert(names_in_attrs(img.attrs@) =~= seq![src_name@]);
        assert(names_in_nodes(img.children@) =~= Seq::<Seq<char>>::empty());
        assert(names_in_elem(img) =~= seq![src_name@]);
        assert(pat_attrs_view(img.attrs@) =~~= seq![
            PatAttrV { name: "src"@, value: AttrPatV::Capture(src_name@) },
        ]);
        assert(pat_nodes_view(img.children@) =~= Seq::<PatNodeV>::empty());
        assert(img@ =~~= img_v(src_name@));
    }
    img
}

/// A `td` holding only a captured direction image.
fn pat_img_td(src_name: &str) -> (td: PatElem)
    ensures
        names_in_elem(td) == seq![src_name@],
        td@ == td_img_v(src_name@),
{
    let img = pat_img(src_name);
    let ghost img_names = names_in_elem(img);
    let mut children: Vec<PatNode> = Vec::new();
    children.push(PatNode::Elem(img));
    let td = PatElem { tag: String::from_str("td"), attrs: Vec::new(), children };
    proof {
        assert(names_in_attrs(td.attrs@) =~= Seq::<Seq<char>>::empty());
        assert(names_in_node(td.children@[0]) == img_names);
        assert(td.children@.subrange(1, 1) =~= Seq::<PatNode>::empty());
        assert(names_in_nodes(Seq::<PatNode>::empty()) =~= Seq::<Seq<char>>::empty());
        assert(names_in_nodes(td.children@) =~= seq![src_name@]);
        assert(names_in_elem(td) =~= seq![src_name@]);
        assert(pat_attrs_view(td.attrs@) =~= Seq::<PatAttrV>::empty());
        assert(pat_node_view(td.children@[0]) == PatNodeV::Elem(img_v(src_name@)));
        assert(pat_nodes_view(Seq::<PatNode>::empty()) =~= Seq::<PatNodeV>::empty());
        assert(pat_nodes_view(td.children@) =~~= seq![PatNodeV::Elem(img_v(src_name@))]);
        assert(td@ =~~= td_img_v(src_name@));
    }
    td
}

/// A `td` holding a text capture followed by a captured direction image.
fn pat_text_img_td(text_name: &str, src_name: &str) -> (td: PatElem)
    ensures
        names_in_elem(td) == seq![text_name@, src_name@],
        td@ == td_text_img_v(text_name@, src_name@),
{
    let img = pat_img(src_name);
    let ghost img_names = names_in_elem(img);
    let cap = String::from_str(text_name);
    let mut children: Vec<PatNode> = Vec::new();
    children.push(PatNode::Capture(cap));
    children.push(PatNode::Elem(img));
    let td = PatElem { tag: String::from_str("td"), attrs: Vec::new(), children };
    proof {
        assert(names_in_attrs(td.attrs@) =~= Seq::<Seq<char>>::empty());
        assert(names_in_node(td.children@[0]) == seq![text_name@]);
        assert(names_in_node(td.children@[1]) == img_names);
        let tail = td.children@.subrange(1, 2);
        assert(tail[0] == td.children@[1]);
        assert(tail.subrange(1, 1) =~= Seq::<PatNode>::empty());
        assert(names_in_nodes(Seq::<PatNode>::empty()) =~= Seq::<Seq<char>>::empty());
        assert(names_in_nodes(tail) =~= seq![src_name@]);
        assert(names_in_nodes(td.children@) =~= seq![text_name@, src_name@]);
        assert(names_in_elem(td) =~= seq![text_name@, src_name@]);
        assert(pat_attrs_view(td.attrs@) =~= Seq::<PatAttrV>::empty());
        assert(pat_node_view(td.children@[0]) == PatNodeV::Capture(text_name@));
        assert(pat_node_view(td.children@[1]) == PatNodeV::Elem(img_v(src_name@)));
        assert(pat_nodes_view(Seq::<PatNode>::empty()) =~= Seq::<PatNodeV>::empty());
        assert(pat_nodes_view(tail) =~~= seq![PatNodeV::Elem(img_v(src_name@))]);
        assert(pat_nodes_view(td.children@) =~~= seq![
            PatNodeV::Capture(text_name@),
            PatNodeV::Elem(img_v(src_name@)),
        ]);
        assert(td@ =~~= td_text_img_v(text_name@, src_name@));
    }
    td
}

/// Appends one `td` skeleton to a row under construction.
fn push_td(kids: &mut Vec<PatNode>, td: PatElem)
    ensures
        names_in_nodes(final(kids)@) == names_in_nodes(old(kids)@) + names_in_elem(td),
        final(kids)@.len() == old(kids)@.len() + 1,
        pat_nodes_view(final(kids)@) == pat_nodes_view(old(kids)@).push(
            PatNodeV::Elem(td@),
        ),
{
    let ghost pre = kids@;
    let ghost names = names_in_elem(td);
    let ghost tdv = td@;
    kids.push(PatNode::Elem(td));
    proof {
        lemma_names_push(pre, kids@[pre.len() as int]);
        assert(names_in_node(kids@[pre.len() as int]) == names);
        lemma_pat_nodes_view_push(pre, kids@[pre.len() as int]);
        assert(pat_node_view(kids@[pre.len() as int]) == PatNodeV::Elem(tdv));
    }
}

/// Placeholder names distribute over appending one pattern node.
proof fn lemma_names_push(s: Seq<PatNode>, x: PatNode)
    ensures
        names_in_nodes(s.push(x)) == names_in_nodes(s) + names_in_node(x),
    decreases s,
{
    if s.len() == 0 {
        assert(s.push(x)[0] == x);
        assert(s.push(x).subrange(1, 1) =~= Seq::<PatNode>::empty());
        assert(names_in_nodes(Seq::<PatNode>::empty()) =~= Seq::<Seq<char>>::empty());
        assert(names_in_node(x) + Seq::<Seq<char>>::empty() =~= names_in_node(x));
        assert(names_in_nodes(s) + names_in_node(x) =~= names_in_node(x));
    } else {
        let t = s.subrange(1, s.len() as int);
        assert(s.push(x)[0] == s[0]);
        assert(s.push(x).subrange(1, s.len() as int + 1) =~= t.push(x));
        lemma_names_push(t, x);
        assert(names_in_node(s[0]) + (names_in_nodes(t) + names_in_node(x)) =~= (names_in_node(
            s[0],
        ) + names_in_nodes(t)) + names_in_node(x));
    }
}

/// A `tr` row skeleton, optionally constrained to `class="conteudo"`.
fn pat_row(with_class: bool, kids: Vec<PatNode>) -> (row: PatElem)
    ensures
        names_in_elem(row) == names_in_nodes(kids@),
        row.tag@ == "tr"@,
        row.children@ == kids@,
        row@ == row_v(with_class, pat_nodes_view(kids@)),
{
    let mut attrs: Vec<PatAttr> = Vec::new();
    if with_class {
        attrs.push(
            PatAttr {
                name: String::from_str("class"),
                value: AttrPat::Lit(String::from_str("conteudo")),
            },
        );
        proof {
            assert(attrs@.subrange(1, 1) =~= Seq::<PatAttr>::empty());
            assert(names_in_attrs(Seq::<PatAttr>::empty()) =~= Seq::<Seq<char>>::empty());
            assert(names_in_attrs(attrs@) =~= Seq::<Seq<char>>::empty());
        }
    } else {
        proof {
            assert(names_in_attrs(attrs@) =~= Seq::<Seq<char>>::empty());
        }
    }
    let row = PatElem { tag: String::from_str("tr"), attrs, children: kids };
    proof {
        assert(names_in_elem(row) =~= names_in_nodes(row.children@));
        if with_class {
            assert(pat_attrs_view(row.attrs@) =~~= seq![
                PatAttrV { name: "class"@, value: AttrPatV::Lit("conteudo"@) },
            ]);
        } else {
            assert(pat_attrs_view(row.attrs@) =~= Seq::<PatAttrV>::empty());
        }
        assert(row@ =~~= row_v(with_class, pat_nodes_view(kids@)));
    }
    row
}

/// A literal attribute constraint on the context element.
fn ctx_attr(name: &str, value: &str) -> (a: Attr)
    ensures
        a.name@ == name@,
        a.value@ == value@,
        a@ == (AttrV { name: name@, value: value@ }),
{
    Attr { name: String::from_str(name), value: String::from_str(value) }
}

impl TableType {
    /// The URL of the page this table is fetched from.
    pub fn source_url(&self) -> (r: &'static str)
        ensures
            r@ == source_url_spec(*self),
    {
        match self {
            TableType::ChinaExportBovine | TableType::FatOxPrices => {
                "https://www.scotconsultoria.com.br/cotacoes/boi-gordo/?ref=smn"
            },
            TableType::CattlePrice => {
                "https://www.scotconsultoria.com.br/cotacoes/indicadores/?ref=smn"
            },
            TableType::FatCowPrices => {
                "https://www.scotconsultoria.com.br/cotacoes/vaca-gorda/?ref=smn"
            },
            TableType::FatHeiferPrices => {
                "https://www.scotconsultoria.com.br/cotacoes/novilha/?ref=smn"
            },
        }
    }

    /// The structural pattern of this table: a `table` context element
    /// and a repeatable `tr` row skeleton whose cells capture the named
    /// fields.  Every pattern is well formed: each placeholder name is
    /// bound at most once per row.
    #[verifier::rlimit(100)]
    pub fn get_pattern(&self) -> (p: Pattern)
        ensures
            p.repeat,
            p.context_tag@ == "table"@,
            p.context_attrs@.len() == context_attr_count(*self),
            p.row.tag@ == "tr"@,
            p.row.children@.len() == row_cell_count(*self),
            capture_names(p) == expected_captures(*self),
            pattern_wf(p),
            p@ == pattern_spec(*self),
    {
        match self {
            TableType::ChinaExportBovine => {
                let mut kids: Vec<PatNode> = Vec::new();
                proof {
                    assert(names_in_nodes(kids@) =~= Seq::<Seq<char>>::empty());
                    assert(pat_nodes_view(kids@) =~= Seq::<PatNodeV>::empty());
                }
                push_td(&mut kids, pat_capture_td("state"));
                push_td(&mut kids, pat_capture_td("gross_price"));
                push_td(&mut kids, pat_capture_td("net_price"));
                proof {
                    assert(names_in_nodes(kids@) =~= seq!["state"@, "gross_price"@, "net_price"@]);
                }
                let row = pat_row(true, kids);
                let mut context_attrs: Vec<Attr> = Vec::new();
                context_attrs.push(ctx_attr("cellpadding", "0"));
                context_attrs.push(ctx_attr("cellspacing", "0"));
                context_attrs.push(ctx_attr("width", "660px"));
                let p = Pattern {
                    context_tag: String::from_str("table"),
                    context_attrs,
                    row,
                    repeat: true,
                };
                proof {
                    reveal_strlit("state");
                    reveal_strlit("gross_price");
                    reveal_strlit("net_price");
                    let ns = capture_names(p);
                    assert(ns[0].len() == 5);
                    assert(ns[1].len() == 11);
                    assert(ns[2].len() == 9);
                    assert(ns.no_duplicates());
                    assert(pat_nodes_view(p.row.children@) =~~= seq![
                        PatNodeV::Elem(td_capture_v("state"@)),
                        PatNodeV::Elem(td_capture_v("gross_price"@)),
                        PatNodeV::Elem(td_capture_v("net_price"@)),
                    ]);
                    assert(attrs_view(p.context_attrs@) =~~= seq![
                        AttrV { name: "cellpadding"@, value: "0"@ },
                        AttrV { name: "cellspacing"@, value: "0"@ },
                        AttrV { name: "width"@, value: "660px"@ },
                    ]);
                    assert(p@ =~~= pattern_spec(*self));
                }
                p
            },
            TableType::CattlePrice => {
                let mut kids: Vec<PatNode> = Vec::new();
                proof {
                    assert(names_in_nodes(kids@) =~= Seq::<Seq<char>>::empty());
                    assert(pat_nodes_view(kids@) =~= Seq::<PatNodeV>::empty());
                }
                push_td(&mut kids, pat_capture_td("region"));
                push_td(&mut kids, pat_capture_td("price_today"));
                push_td(&mut kids, pat_capture_td("price_yesterday"));
                push_td(&mut kids, pat_text_img_td("price_change", "market_indicator"));
                proof {
                    assert(names_in_nodes(kids@) =~= seq![
                        "region"@,
                        "price_today"@,
                        "price_yesterday"@,
                        "price_change"@,
                        "market_indicator"@,
                    ]);
                }
                let row = pat_row(true, kids);
                let p = Pattern {
                    context_tag: String::from_str("table"),
                    context_attrs: Vec::new(),
                    row,
                    repeat: true,
                };
                proof {
                    reveal_strlit("region");
                    reveal_strlit("price_today");
                    reveal_strlit("price_yesterday");
                    reveal_strlit("price_change");
                    reveal_strlit("market_indicator");
                    let ns = capture_names(p);
                    assert(ns[0].len() == 6);
                    assert(ns[1].len() == 11);
                    assert(ns[2].len() == 15);
                    assert(ns[3].len() == 12);
                    assert(ns[4].len() == 16);
                    assert(ns.no_duplicates());
                    assert(pat_nodes_view(p.row.children@) =~~= seq![
                        PatNodeV::Elem(td_capture_v("region"@)),
                        PatNodeV::Elem(td_capture_v("price_today"@)),
                        PatNodeV::Elem(td_capture_v("price_yesterday"@)),
                        PatNodeV::Elem(td_text_img_v("price_change"@, "market_indicator"@)),
                    ]);
                    assert(attrs_view(p.context_attrs@) =~= Seq::<AttrV>::empty());
                    assert(p@ =~~= pattern_spec(*self));
                }
                p
            },
            TableType::FatOxPrices => {
                let mut kids: Vec<PatNode> = Vec::new();
                proof {
                    assert(names_in_nodes(kids@) =~= Seq::<Seq<char>>::empty());
                    assert(pat_nodes_view(kids@) =~= Seq::<PatNodeV>::empty());
                }
                push_td(&mut kids, pat_capture_td("state"));
                push_td(&mut kids, pat_capture_td("cash_price"));
                push_td(&mut kids, pat_capture_td("price_30_days"));
                push_td(&mut kids, pat_img_td("market_indicator"));
                push_td(&mut kids, pat_capture_td("differential"));
                push_td(&mut kids, pat_capture_td("funrural_discount_cash"));
                push_td(&mut kids, pat_capture_td("funrural_discount_30_days"));
                push_td(&mut kids, pat_capture_td("senar_contribution_cash"));
                push_td(&mut kids, pat_plain_td());
                push_td(&mut kids, pat_capture_td("senar_contribution_30_days"));
                push_td(&mut kids, pat_plain_td());
                proof {
                    assert(names_in_nodes(kids@) =~= seq![
                        "state"@,
                        "cash_price"@,
                        "price_30_days"@,
                        "market_indicator"@,
                        "differential"@,
                        "funrural_discount_cash"@,
                        "funrural_discount_30_days"@,
                        "senar_contribution_cash"@,
                        "senar_contribution_30_days"@,
                    ]);
                }
                let row = pat_row(true, kids);
                let mut context_attrs: Vec<Attr> = Vec::new();
                context_attrs.push(ctx_attr("border", "0"));
                context_attrs.push(ctx_attr("cellpadding", "0"));
                context_attrs.push(ctx_attr("cellspacing", "0"));
                context_attrs.push(ctx_attr("width", "660"));
                context_attrs.push(ctx_attr("style", "margin-top: 10px"));
                let p = Pattern {
                    context_tag: String::from_str("table"),
                    context_attrs,
                    row,
                    repeat: true,
                };
                proof {
                    reveal_strlit("state");
                    reveal_strlit("cash_price");
                    reveal_strlit("price_30_days");
                    reveal_strlit("market_indicator");
                    reveal_strlit("differential");
                    reveal_strlit("funrural_discount_cash");
                    reveal_strlit("funrural_discount_30_days");
                    reveal_strlit("senar_contribution_cash");
                    reveal_strlit("senar_contribution_30_days");
                    let ns = capture_names(p);
                    assert(ns[0].len() == 5);
                    assert(ns[1].len() == 10);
                    assert(ns[2].len() == 13);
                    assert(ns[3].len() == 16);
                    assert(ns[4].len() == 12);
                    assert(ns[5].len() == 22);
                    assert(ns[6].len() == 25);
                    assert(ns[7].len() == 23);
                    assert(ns[8].len() == 26);
                    assert(ns.no_duplicates());
                    assert(pat_nodes_view(p.row.children@) =~~= seq![
                        PatNodeV::Elem(td_capture_v("state"@)),
                        PatNodeV::Elem(td_capture_v("cash_price"@)),
                        PatNodeV::Elem(td_capture_v("price_30_days"@)),
                        PatNodeV::Elem(td_img_v("market_indicator"@)),
                        PatNodeV::Elem(td_capture_v("differential"@)),
                        PatNodeV::Elem(td_capture_v("funrural_discount_cash"@)),
                        PatNodeV::Elem(td_capture_v("funrural_discount_30_days"@)),
                        PatNodeV::Elem(td_capture_v("senar_contribution_cash"@)),
                        PatNodeV::Elem(td_plain_v()),
                        PatNodeV::Elem(td_capture_v("senar_contribution_30_days"@)),
                        PatNodeV::Elem(td_plain_v()),
                    ]);
                    assert(attrs_view(p.context_attrs@) =~~= seq![
                        AttrV { name: "border"@, value: "0"@ },
                        AttrV { name: "cellpadding"@, value: "0"@ },
                        AttrV { name: "cellspacing"@, value: "0"@ },
                        AttrV { name: "width"@, value: "660"@ },
                        AttrV { name: "style"@, value: "margin-top: 10px"@ },
                    ]);
                    assert(p@ =~~= pattern_spec(*self));
                }
                p
            },
            TableType::FatCowPrices | TableType::FatHeiferPrices => {
                let mut kids: Vec<PatNode> = Vec::new();
                proof {
                    assert(names_in_nodes(kids@) =~= Seq::<Seq<char>>::empty());
                    assert(pat_nodes_view(kids@) =~= Seq::<PatNodeV>::empty());
                }
                push_td(&mut kids, pat_capture_td("state"));
                push_td(&mut kids, pat_capture_td("cash_price"));
                push_td(&mut kids, pat_capture_td("price_30_days"));
                push_td(&mut kids, pat_img_td("pointer"));
                push_td(&mut kids, pat_capture_td("funrural_discount_cash"));
                push_td(&mut kids, pat_capture_td("funrural_discount_30_days"));
                push_td(&mut kids, pat_capture_td("senar_contribution_cash"));
                push_td(&mut kids, pat_plain_td());
                push_td(&mut kids, pat_capture_td("senar_contribution_30_days"));
                push_td(&mut kids, pat_plain_td());
                proof {
                    assert(names_in_nodes(kids@) =~= seq![
                        "state"@,
                        "cash_price"@,
                        "price_30_days"@,
                        "pointer"@,
                        "funrural_discount_cash"@,
                        "funrural_discount_30_days"@,
                        "senar_contribution_cash"@,
                        "senar_contribution_30_days"@,
                    ]);
                }
                let row = pat_row(false, kids);
                let p = Pattern {
                    context_tag: String::from_str("table"),
                    context_attrs: Vec::new(),
                    row,
                    repeat: true,
                };
                proof {
                    reveal_strlit("state");
                    reveal_strlit("cash_price");
                    reveal_strlit("price_30_days");
                    reveal_strlit("pointer");
                    reveal_strlit("funrural_discount_cash");
                    reveal_strlit("funrural_discount_30_days");
                    reveal_strlit("senar_contribution_cash");
                    reveal_strlit("senar_contribution_30_days");
                    let ns = capture_names(p);
                    assert(ns[0].len() == 5);
                    assert(ns[1].len() == 10);
                    assert(ns[2].len() == 13);
                    assert(ns[3].len() == 7);
                    assert(ns[4].len() == 22);
                    assert(ns[5].len() == 25);
                    assert(ns[6].len() == 23);
                    assert(ns[7].len() == 26);
                    assert(ns.no_duplicates());
                    assert(pat_nodes_view(p.row.children@) =~~= seq![
                        PatNodeV::Elem(td_capture_v("state"@)),
                        PatNodeV::Elem(td_capture_v("cash_price"@)),
                        PatNodeV::Elem(td_capture_v("price_30_days"@)),
                        PatNodeV::Elem(td_img_v("pointer"@)),
                        PatNodeV::Elem(td_capture_v("funrural_discount_cash"@)),
                        PatNodeV::Elem(td_capture_v("funrural_discount_30_days"@)),
                        PatNodeV::Elem(td_capture_v("senar_contribution_cash"@)),
                        PatNodeV::Elem(td_plain_v()),
                        PatNodeV::Elem(td_capture_v("senar_contribution_30_days"@)),
                        PatNodeV::Elem(td_plain_v()),
                    ]);
                    assert(attrs_view(p.context_attrs@) =~= Seq::<AttrV>::empty());
                    assert(p@ =~~= pattern_spec(*self));
                }
                p
            },
        }
    }
}

/// Applies a pattern to a parsed page and treats an empty match set as
/// the "table not found" failure: the rows are returned exactly when the
/// pattern matched at least one row.
pub fn get_table(pattern: &Pattern, doc: &Vec<Node>) -> (r: Result<Vec<MatchRow>, TableError>)
    ensures
        r matches Ok(rows) ==> rows_view(rows@) == pattern_rows(*pattern, doc@) && rows@.len()
            > 0,
        r is Err <==> pattern_rows(*pattern, doc@).len() == 0,
{
    let rows = match_document(pattern, doc);
    if rows.len() == 0 {
        Err(TableError)
    } else {
        Ok(rows)
    }
}

/// Whether a row is the stray header artifact of the export table: its
/// state field holds the literal column label "UF" instead of a state
/// code.
pub open spec fn is_header_row(r: Seq<(Seq<char>, Seq<char>)>) -> bool {
    row_lookup(r, "state"@) == Some("UF"@)
}

/// The export-table rows with every header artifact row removed, their
/// order kept.
pub open spec fn kept_rows(rs: Seq<Seq<(Seq<char>, Seq<char>)>>) -> Seq<
    Seq<(Seq<char>, Seq<char>)>,
>
    decreases rs,
{
    if rs.len() == 0 {
        Seq::empty()
    } else {
        (if is_header_row(rs[0]) {
            Seq::<Seq<(Seq<char>, Seq<char>)>>::empty()
        } else {
            seq![rs[0]]
        }) + kept_rows(rs.subrange(1, rs.len() as int))
    }
}

/// Discards, before record construction, every export-table row whose
/// state field equals the sentinel "UF": such a row is a header artifact,
/// and it is dropped whole, whatever its price fields hold.  All other
/// rows are kept unchanged and in order.
pub fn filter_export_rows(rows: Vec<MatchRow>) -> (r: Vec<MatchRow>)
    ensures
        rows_view(r@) == kept_rows(rows_view(rows@)),
{
    let ghost orig = rows_view(rows@);
    let mut rest = rows;
    let mut out: Vec<MatchRow> = Vec::new();
    proof {
        assert(rows_view(out@) =~= Seq::<Seq<(Seq<char>, Seq<char>)>>::empty());
        assert(rows_view(out@) + kept_rows(rows_view(rest@)) =~= kept_rows(rows_view(rest@)));
    }
    while rest.len() > 0
        invariant
            kept_rows(orig) == rows_view(out@) + kept_rows(rows_view(rest@)),
        decreases rest@.len(),
    {
        let ghost pre_rest = rest@;
        let ghost pre_out = out@;
        let row = rest.remove(0);
        proof {
            assert(rows_view(pre_rest)[0] == row@);
            assert(rows_view(rest@) =~= rows_view(pre_rest).subrange(
                1,
                rows_view(pre_rest).len() as int,
            ));
        }
        let is_hdr = match row.get("state") {
            Some(v) => *v == String::from_str("UF"),
            None => false,
        };
        proof {
            assert(is_hdr == is_header_row(row@));
        }
        if !is_hdr {
            out.push(row);
            proof {
                assert(rows_view(out@) =~= rows_view(pre_out).push(rows_view(pre_rest)[0]));
                assert(rows_view(pre_out) + (seq![rows_view(pre_rest)[0]] + kept_rows(
                    rows_view(rest@),
                )) =~= rows_view(out@) + kept_rows(rows_view(rest@)));
            }
        } else {
            proof {
                assert(rows_view(pre_out) + (Seq::<Seq<(Seq<char>, Seq<char>)>>::empty()
                    + kept_rows(rows_view(rest@))) =~= rows_view(out@) + kept_rows(
                    rows_view(rest@),
                ));
            }
        }
    }
    proof {
        assert(rows_view(rest@) =~= Seq::<Seq<(Seq<char>, Seq<char>)>>::empty());
        assert(rows_view(out@) + Seq::<Seq<(Seq<char>, Seq<char>)>>::empty() =~= rows_view(out@));
    }
    out
}

} // verus!
