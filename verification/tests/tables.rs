use cattle_prices::numeric::Decimal;
use cattle_prices::parse::parse_document;
use cattle_prices::records::CattleMarketData;
use cattle_prices::records::CattleType;
use cattle_prices::tables::TableType;
use cattle_prices::tables::get_table;

#[test]
fn urls_per_table_type() {
    assert_eq!(
        TableType::ChinaExportBovine.source_url(),
        "https://www.scotconsultoria.com.br/cotacoes/boi-gordo/?ref=smn"
    );
    assert_eq!(
        TableType::FatOxPrices.source_url(),
        "https://www.scotconsultoria.com.br/cotacoes/boi-gordo/?ref=smn"
    );
    assert_eq!(
        TableType::CattlePrice.source_url(),
        "https://www.scotconsultoria.com.br/cotacoes/indicadores/?ref=smn"
    );
    assert_eq!(
        TableType::FatCowPrices.source_url(),
        "https://www.scotconsultoria.com.br/cotacoes/vaca-gorda/?ref=smn"
    );
    assert_eq!(
        TableType::FatHeiferPrices.source_url(),
        "https://www.scotconsultoria.com.br/cotacoes/novilha/?ref=smn"
    );
}

#[test]
fn fat_ox_table_extracts_and_builds_market_record() {
    let body = "<table border=\"0\" cellpadding=\"0\" cellspacing=\"0\" width=\"660\" \
        style=\"margin-top: 10px\">\
        <tr class=\"conteudo\">\
        <td>SP</td><td>312,00</td><td>315,50</td>\
        <td><img src=\"up.png\"></td>\
        <td>1,12</td>\
        <td>304,88</td><td>308,30</td>\
        <td>311,37</td><td>x</td><td>314,87</td><td>y</td>\
        </tr></table>";
    let doc = parse_document(body);
    let pattern = TableType::FatOxPrices.get_pattern();
    let rows = get_table(&pattern, &doc).expect("the fat-ox row should match");
    assert_eq!(rows.len(), 1);
    let row = &rows[0];
    assert_eq!(row.get("state").unwrap(), "SP");
    assert_eq!(row.get("market_indicator").unwrap(), "up.png");
    assert_eq!(row.get("differential").unwrap(), "1,12");
    let record = CattleMarketData::new(
        CattleType::FatOx,
        row.get("state").unwrap().clone(),
        row.get("cash_price").unwrap().clone(),
        row.get("price_30_days").unwrap().clone(),
        row.get("funrural_discount_cash").unwrap().clone(),
        row.get("funrural_discount_30_days").unwrap().clone(),
        row.get("senar_contribution_cash").unwrap().clone(),
        row.get("senar_contribution_30_days").unwrap().clone(),
    );
    assert_eq!(record.cattle_type, CattleType::FatOx);
    assert_eq!(record.state_code, "SP");
    assert_eq!(record.gross_prices.cash, Decimal { neg: false, mantissa: 31200, scale: 2 });
    assert_eq!(record.gross_prices.thirty_days, Decimal { neg: false, mantissa: 31550, scale: 2 });
    assert_eq!(
        record.discounted_prices.funrural_cash,
        Decimal { neg: false, mantissa: 30488, scale: 2 }
    );
    assert_eq!(
        record.discounted_prices.senar_thirty_days,
        Decimal { neg: false, mantissa: 31487, scale: 2 }
    );
}

#[test]
fn fat_cow_table_uses_plain_rows() {
    let body = "<table>\
        <tr>\
        <td>GO</td><td>250,00</td><td>252,00</td>\
        <td><img src=\"down.png\"></td>\
        <td>244,30</td><td>246,25</td>\
        <td>249,50</td><td></td><td>251,49</td><td></td>\
        </tr></table>";
    let doc = parse_document(body);
    let pattern = TableType::FatCowPrices.get_pattern();
    let rows = get_table(&pattern, &doc).expect("the fat-cow row should match");
    assert_eq!(rows.len(), 1);
    assert_eq!(rows[0].get("state").unwrap(), "GO");
    assert_eq!(rows[0].get("pointer").unwrap(), "down.png");
    assert_eq!(rows[0].get("senar_contribution_30_days").unwrap(), "251,49");
}

#[test]
fn records_default_to_zero_on_malformed_prices() {
    let record = CattleMarketData::new(
        CattleType::FatHeifer,
        "MT".to_string(),
        "n/a".to_string(),
        "260,00".to_string(),
        "".to_string(),
        "-".to_string(),
        "255,10".to_string(),
        "?".to_string(),
    );
    assert_eq!(record.gross_prices.cash, Decimal { neg: false, mantissa: 0, scale: 0 });
    assert_eq!(record.gross_prices.thirty_days, Decimal { neg: false, mantissa: 26000, scale: 2 });
    assert_eq!(
        record.discounted_prices.funrural_cash,
        Decimal { neg: false, mantissa: 0, scale: 0 }
    );
    assert_eq!(
        record.discounted_prices.senar_cash,
        Decimal { neg: false, mantissa: 25510, scale: 2 }
    );
    assert_eq!(
        record.discounted_prices.senar_thirty_days,
        Decimal { neg: false, mantissa: 0, scale: 0 }
    );
}

#[test]
fn fat_cow_and_fat_heifer_patterns_match_alike() {
    let body = "<table>\
        <tr>\
        <td>GO</td><td>250,00</td><td>252,00</td>\
        <td><img src=\"down.png\"></td>\
        <td>244,30</td><td>246,25</td>\
        <td>249,50</td><td></td><td>251,49</td><td></td>\
        </tr></table>";
    let doc = parse_document(body);
    let cow_rows = get_table(&TableType::FatCowPrices.get_pattern(), &doc).unwrap();
    let heifer_rows = get_table(&TableType::FatHeiferPrices.get_pattern(), &doc).unwrap();
    assert_eq!(cow_rows.len(), heifer_rows.len());
    for (a, b) in cow_rows.iter().zip(heifer_rows.iter()) {
        assert_eq!(a.fields.len(), b.fields.len());
        for (fa, fb) in a.fields.iter().zip(b.fields.iter()) {
            assert_eq!(fa.name, fb.name);
            assert_eq!(fa.value, fb.value);
        }
    }
}
