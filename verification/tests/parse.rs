use cattle_prices::html::Node;
use cattle_prices::html::nodes_text;
use cattle_prices::parse::parse_document;

#[test]
fn elements_text_and_attributes() {
    let doc = parse_document("<div id=\"a\"> hello <b>world</b></div>");
    assert_eq!(doc.len(), 1);
    match &doc[0] {
        Node::Elem(e) => {
            assert_eq!(e.tag, "div");
            assert_eq!(e.attrs.len(), 1);
            assert_eq!(e.attrs[0].name, "id");
            assert_eq!(e.attrs[0].value, "a");
            assert_eq!(e.children.len(), 2);
            match &e.children[0] {
                Node::Text(t) => assert_eq!(t, "hello"),
                Node::Elem(_) => panic!("expected a text run first"),
            }
        },
        Node::Text(_) => panic!("expected an element"),
    }
}

#[test]
fn comments_and_doctype_are_skipped() {
    let doc = parse_document("<!DOCTYPE html><!-- note --><p>x</p>");
    assert_eq!(doc.len(), 1);
    match &doc[0] {
        Node::Elem(e) => assert_eq!(e.tag, "p"),
        Node::Text(_) => panic!("expected an element"),
    }
}

#[test]
fn void_elements_take_no_children() {
    let doc = parse_document("<td>5,00<img src=\"up.png\">after</td>");
    match &doc[0] {
        Node::Elem(td) => {
            assert_eq!(td.children.len(), 3);
            match &td.children[1] {
                Node::Elem(img) => {
                    assert_eq!(img.tag, "img");
                    assert!(img.children.is_empty());
                },
                Node::Text(_) => panic!("expected the img element"),
            }
        },
        Node::Text(_) => panic!("expected the td element"),
    }
}

#[test]
fn whitespace_only_runs_are_dropped() {
    let doc = parse_document("<tr>\n    <td> MG </td>\n  </tr>");
    match &doc[0] {
        Node::Elem(tr) => {
            assert_eq!(tr.children.len(), 1);
            match &tr.children[0] {
                Node::Elem(td) => match &td.children[0] {
                    Node::Text(t) => assert_eq!(t, "MG"),
                    Node::Elem(_) => panic!("expected text"),
                },
                Node::Text(_) => panic!("expected the td element"),
            }
        },
        Node::Text(_) => panic!("expected the tr element"),
    }
}

#[test]
fn unclosed_elements_are_closed_at_end_of_input() {
    let doc = parse_document("<table><tr><td>a");
    assert_eq!(doc.len(), 1);
    let text = match &doc[0] {
        Node::Elem(e) => {
            assert_eq!(e.tag, "table");
            nodes_text(&e.children)
        },
        Node::Text(_) => panic!("expected the table element"),
    };
    assert_eq!(text, "a");
}

#[test]
fn concatenated_text_of_nested_markup() {
    let doc = parse_document("<td><b>3</b>50,00</td>");
    let text = nodes_text(&doc);
    assert_eq!(text, "350,00");
}

#[test]
fn markup_free_text_is_one_trimmed_node() {
    let doc = parse_document("  price list \n");
    assert_eq!(doc.len(), 1);
    match &doc[0] {
        Node::Text(t) => assert_eq!(t, "price list"),
        Node::Elem(_) => panic!("expected a text run"),
    }
}

#[test]
fn whitespace_only_input_is_empty() {
    let doc = parse_document(" \n\t  ");
    assert!(doc.is_empty());
}
