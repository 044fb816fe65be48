use cattle_prices::matcher::MatchRow;
use cattle_prices::matcher::match_document;
use cattle_prices::parse::parse_document;
use cattle_prices::tables::TableType;

fn rows_to_pairs(rows: &Vec<MatchRow>) -> Vec<Vec<(String, String)>> {
    let mut out = Vec::new();
    for row in rows {
        let mut fields = Vec::new();
        for f in &row.fields {
            fields.push((f.name.clone(), f.value.clone()));
        }
        out.push(fields);
    }
    out
}

fn china_doc(n: usize) -> String {
    let mut body = String::new();
    body.push_str("<html><body><table cellpadding=\"0\" cellspacing=\"0\" width=\"660px\">");
    for i in 0..n {
        body.push_str(&format!(
            "<tr class=\"conteudo\"><td>S{}</td><td>{},00</td><td>{},50</td></tr>",
            i,
            100 + i,
            90 + i
        ));
    }
    body.push_str("</table></body></html>");
    body
}

#[test]
fn matching_twice_is_identical() {
    let doc = parse_document(&china_doc(3));
    let pattern = TableType::ChinaExportBovine.get_pattern();
    let first = match_document(&pattern, &doc);
    let second = match_document(&pattern, &doc);
    assert_eq!(rows_to_pairs(&first), rows_to_pairs(&second));
}

#[test]
fn repeatable_pattern_finds_every_row_in_order() {
    let doc = parse_document(&china_doc(4));
    let pattern = TableType::ChinaExportBovine.get_pattern();
    let rows = match_document(&pattern, &doc);
    assert_eq!(rows.len(), 4);
    for (i, row) in rows.iter().enumerate() {
        assert_eq!(row.get("state").unwrap(), &format!("S{}", i));
        assert_eq!(row.get("gross_price").unwrap(), &format!("{},00", 100 + i));
        assert_eq!(row.get("net_price").unwrap(), &format!("{},50", 90 + i));
    }
}

#[test]
fn no_matching_subtree_yields_empty_not_error() {
    let doc = parse_document("<html><body><div><p>no tables here</p></div></body></html>");
    let pattern = TableType::ChinaExportBovine.get_pattern();
    let rows = match_document(&pattern, &doc);
    assert!(rows.is_empty());
}

#[test]
fn structurally_wrong_rows_are_skipped() {
    // Two well-formed rows around one row with too few cells: only the
    // well-formed rows match.
    let body = "<table cellpadding=\"0\" cellspacing=\"0\" width=\"660px\">\
        <tr class=\"conteudo\"><td>SP</td><td>1,00</td><td>2,00</td></tr>\
        <tr class=\"conteudo\"><td>half</td></tr>\
        <tr class=\"conteudo\"><td>MG</td><td>3,00</td><td>4,00</td></tr>\
        </table>";
    let doc = parse_document(body);
    let pattern = TableType::ChinaExportBovine.get_pattern();
    let rows = match_document(&pattern, &doc);
    assert_eq!(rows.len(), 2);
    assert_eq!(rows[0].get("state").unwrap(), "SP");
    assert_eq!(rows[1].get("state").unwrap(), "MG");
}

#[test]
fn context_attributes_are_required() {
    // Same rows, but the table lacks the constrained attributes.
    let body = "<table><tr class=\"conteudo\"><td>SP</td><td>1,00</td><td>2,00</td></tr></table>";
    let doc = parse_document(body);
    let pattern = TableType::ChinaExportBovine.get_pattern();
    let rows = match_document(&pattern, &doc);
    assert!(rows.is_empty());
}

#[test]
fn missing_field_lookup_is_none() {
    let doc = parse_document(&china_doc(1));
    let pattern = TableType::ChinaExportBovine.get_pattern();
    let rows = match_document(&pattern, &doc);
    assert_eq!(rows.len(), 1);
    assert!(rows[0].get("no_such_field").is_none());
}
