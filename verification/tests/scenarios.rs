use cattle_prices::numeric::Decimal;
use cattle_prices::parse::parse_document;
use cattle_prices::records::CattlePrice;
use cattle_prices::records::ChinaExportBovine;
use cattle_prices::tables::TableType;
use cattle_prices::tables::filter_export_rows;
use cattle_prices::tables::get_table;

#[test]
fn cattle_price_row_yields_one_record() {
    let body = "<html><body><table><tr class=\"conteudo\">\
        <td>MG</td><td>350,00</td><td>345,00</td>\
        <td>5,00<img src=\"up.png\"></td>\
        </tr></table></body></html>";
    let doc = parse_document(body);
    let pattern = TableType::CattlePrice.get_pattern();
    let rows = get_table(&pattern, &doc).expect("the table row should match");
    assert_eq!(rows.len(), 1);
    let row = &rows[0];
    assert_eq!(row.get("region").unwrap(), "MG");
    assert_eq!(row.get("market_indicator").unwrap(), "up.png");
    let record = CattlePrice::new(
        row.get("region").unwrap().clone(),
        row.get("price_today").unwrap().clone(),
        row.get("price_yesterday").unwrap().clone(),
        row.get("price_change").unwrap().clone(),
    );
    assert_eq!(record.region, "MG");
    assert_eq!(record.price_today, Decimal { neg: false, mantissa: 35000, scale: 2 });
    assert_eq!(record.price_yesterday, Decimal { neg: false, mantissa: 34500, scale: 2 });
    assert_eq!(record.price_change, Decimal { neg: false, mantissa: 500, scale: 2 });
}

#[test]
fn export_header_row_is_filtered_out() {
    let body = "<table cellpadding=\"0\" cellspacing=\"0\" width=\"660px\">\
        <tr class=\"conteudo\"><td>UF</td><td>9.999,99</td><td>9.999,99</td></tr>\
        <tr class=\"conteudo\"><td>SP</td><td>310,00</td><td>295,00</td></tr>\
        </table>";
    let doc = parse_document(body);
    let pattern = TableType::ChinaExportBovine.get_pattern();
    let rows = get_table(&pattern, &doc).expect("the table should match");
    assert_eq!(rows.len(), 2);
    let kept = filter_export_rows(rows);
    assert_eq!(kept.len(), 1);
    assert_eq!(kept[0].get("state").unwrap(), "SP");
    let record = ChinaExportBovine::new(
        kept[0].get("state").unwrap().clone(),
        kept[0].get("gross_price").unwrap().clone(),
        kept[0].get("net_price").unwrap().clone(),
    );
    assert_eq!(record.state, "SP");
    assert_eq!(record.gross_price, Decimal { neg: false, mantissa: 31000, scale: 2 });
    assert_eq!(record.net_price, Decimal { neg: false, mantissa: 29500, scale: 2 });
}

#[test]
fn header_only_table_yields_no_records() {
    let body = "<table cellpadding=\"0\" cellspacing=\"0\" width=\"660px\">\
        <tr class=\"conteudo\"><td>UF</td><td>1,00</td><td>2,00</td></tr>\
        </table>";
    let doc = parse_document(body);
    let pattern = TableType::ChinaExportBovine.get_pattern();
    let rows = get_table(&pattern, &doc).expect("the table should match");
    let kept = filter_export_rows(rows);
    assert!(kept.is_empty());
}

#[test]
fn one_failed_table_leaves_the_others_unaffected() {
    // A page whose markup changed yields the "table not found" error and
    // so no rows for that table; a good page for another table still
    // yields its rows.
    let broken = parse_document("<html><body><p>layout changed</p></body></html>");
    let china = TableType::ChinaExportBovine.get_pattern();
    assert!(get_table(&china, &broken).is_err());

    let good = parse_document(
        "<table><tr class=\"conteudo\">\
        <td>MG</td><td>350,00</td><td>345,00</td><td>5,00<img src=\"up.png\"></td>\
        </tr></table>",
    );
    let cattle = TableType::CattlePrice.get_pattern();
    let rows = get_table(&cattle, &good).expect("the healthy table still matches");
    assert_eq!(rows.len(), 1);
}

#[test]
fn table_error_has_its_message() {
    let broken = parse_document("<div></div>");
    let pattern = TableType::CattlePrice.get_pattern();
    match get_table(&pattern, &broken) {
        Ok(_) => panic!("nothing should match"),
        Err(e) => assert_eq!(e.message(), "Failed to get table"),
    }
}
