use us_stock_tracker::cmoney::{cmoney_description, cmoney_texts};
use us_stock_tracker::config::StockItem;
use us_stock_tracker::json::{float_text, symbol_and_name, yahoo_texts, JsonValue};
use us_stock_tracker::quote::{after_answer, empty_quote, first_source, resolve_name, QuoteSource, StockQuote};
use us_stock_tracker::sources::{cmoney_url, lookup_url, yahoo_chart_url};

fn conv(v: serde_json::Value) -> JsonValue {
    match v {
        serde_json::Value::Null => JsonValue::Null,
        serde_json::Value::Bool(b) => JsonValue::Bool(b),
        serde_json::Value::Number(n) => JsonValue::Number(n.to_string()),
        serde_json::Value::String(s) => JsonValue::Text(s),
        serde_json::Value::Array(a) => JsonValue::Array(a.into_iter().map(conv).collect()),
        serde_json::Value::Object(m) => {
            JsonValue::Object(m.into_iter().map(|(k, v)| (k, conv(v))).collect())
        }
    }
}

fn json(text: &str) -> JsonValue {
    conv(serde_json::from_str(text).unwrap())
}

const PAGE: &str = "<html><head><title>x</title>\
    <meta name=\"description\" content=\"特斯拉(TSLA)股價 250.12；昨收 245.00；開盤 246.5；\
    最高 252.3；最低 244.1；漲跌幅 2.09％；成交量 1,234,567。\">\
    </head></html>";

#[test]
fn cmoney_page_gives_every_figure() {
    let t = cmoney_texts(PAGE).unwrap();
    assert_eq!(t.price, "250.12");
    assert_eq!(t.prev.as_deref(), Some("245.00"));
    assert_eq!(t.open.as_deref(), Some("246.5"));
    assert_eq!(t.high.as_deref(), Some("252.3"));
    assert_eq!(t.low.as_deref(), Some("244.1"));
    assert_eq!(t.pct.as_deref(), Some("2.09"));
    assert_eq!(t.volume.as_deref(), Some("1234567"));
}

#[test]
fn cmoney_description_is_the_content_attribute() {
    let page = "<meta name=\"description\" content=\"A股價 1;B\"> tail\"";
    assert_eq!(cmoney_description(page).as_deref(), Some("A股價 1;B"));
}

#[test]
fn cmoney_without_price_word_or_meta_gives_nothing() {
    assert!(cmoney_texts("<meta name=\"description\" content=\"no quote here\">").is_none());
    assert!(cmoney_texts("<p>股價 12</p>").is_none());
    assert!(cmoney_texts("<meta name=\"description\" content=\"股價 12").is_none());
    assert!(cmoney_texts("").is_none());
}

#[test]
fn cmoney_volume_falls_back_to_total_and_missing_figures_are_none() {
    let page = "<meta name=\"description\" content=\"股價 9.5 ; 總量 12,000 ; 漲跌幅 -1.2%\">";
    let t = cmoney_texts(page).unwrap();
    assert_eq!(t.price, "9.5");
    assert_eq!(t.volume.as_deref(), Some("12000"));
    assert_eq!(t.pct.as_deref(), Some("-1.2"));
    assert!(t.prev.is_none());
    assert!(t.open.is_none());
    assert!(t.high.is_none());
    assert!(t.low.is_none());
}

const CHART: &str = r#"{"chart":{"result":[{"meta":{"symbol":"TSLA","shortName":"Tesla, Inc.",
  "longName":"Tesla Inc","regularMarketPrice":250.5,"chartPreviousClose":240,
  "previousClose":1,"regularMarketDayHigh":"251.0","regularMarketDayLow":null,
  "regularMarketVolume":123456789,"regularMarketTime":1700000000},
  "indicators":{"quote":[{"open":[null,"x",245.25,246]}]}}],"error":null}}"#;

#[test]
fn yahoo_document_gives_every_figure() {
    let t = yahoo_texts(&json(CHART)).unwrap();
    assert_eq!(t.price.as_deref(), Some("250.5"));
    assert_eq!(t.prev.as_deref(), Some("240"));
    assert_eq!(t.high.as_deref(), Some("251.0"));
    assert_eq!(t.low, None);
    assert_eq!(t.volume.as_deref(), Some("123456789"));
    assert_eq!(t.open.as_deref(), Some("245.25"));
    assert_eq!(t.market_time.as_deref(), Some("1700000000"));
}

#[test]
fn yahoo_previous_close_falls_back_only_when_absent() {
    let doc = r#"{"chart":{"result":[{"meta":{"previousClose":99.5}}]}}"#;
    assert_eq!(yahoo_texts(&json(doc)).unwrap().prev.as_deref(), Some("99.5"));
    let doc = r#"{"chart":{"result":[{"meta":{"chartPreviousClose":null,"previousClose":99.5}}]}}"#;
    assert_eq!(yahoo_texts(&json(doc)).unwrap().prev, None);
}

#[test]
fn yahoo_without_result_meta_gives_nothing() {
    assert!(yahoo_texts(&json(r#"{"chart":{"result":[]}}"#)).is_none());
    assert!(yahoo_texts(&json(r#"{"chart":{"result":null,"error":{}}}"#)).is_none());
    assert!(yahoo_texts(&json(r#"{"chart":{"result":[{"x":1}]}}"#)).is_none());
    assert!(yahoo_texts(&json(r#"[1,2]"#)).is_none());
}

#[test]
fn float_text_reads_numbers_and_strings_only() {
    assert_eq!(float_text(Some(&JsonValue::Number("1.5".to_string()))).as_deref(), Some("1.5"));
    assert_eq!(float_text(Some(&JsonValue::Text("2".to_string()))).as_deref(), Some("2"));
    assert_eq!(float_text(Some(&JsonValue::Bool(true))), None);
    assert_eq!(float_text(None), None);
}

#[test]
fn symbol_lookup_prefers_short_name_then_long_name_then_ticker() {
    assert_eq!(
        symbol_and_name(&json(CHART)),
        Some(("TSLA".to_string(), "Tesla, Inc.".to_string()))
    );
    let doc = r#"{"chart":{"result":[{"meta":{"symbol":"AMD","longName":"Advanced Micro"}}]}}"#;
    assert_eq!(
        symbol_and_name(&json(doc)),
        Some(("AMD".to_string(), "Advanced Micro".to_string()))
    );
    let doc = r#"{"chart":{"result":[{"meta":{"symbol":"AMD","shortName":null,"longName":"L"}}]}}"#;
    assert_eq!(symbol_and_name(&json(doc)), Some(("AMD".to_string(), "AMD".to_string())));
    let doc = r#"{"chart":{"result":[{"meta":{"symbol":7}}]}}"#;
    assert_eq!(symbol_and_name(&json(doc)), None);
}

#[test]
fn addresses_of_sources() {
    assert_eq!(cmoney_url("TSLA"), "https://www.cmoney.tw/forum/usstock/TSLA");
    assert_eq!(
        yahoo_chart_url("TSLA").as_deref(),
        Some("https://query1.finance.yahoo.com/v8/finance/chart/TSLA?interval=1d&range=1d")
    );
    assert_eq!(
        yahoo_chart_url("A B").as_deref(),
        Some("https://query1.finance.yahoo.com/v8/finance/chart/A%20B?interval=1d&range=1d")
    );
    assert_eq!(
        yahoo_chart_url("/x").as_deref(),
        Some("https://query1.finance.yahoo.com/v8/finance/chart/x?interval=1d&range=1d")
    );
    assert_eq!(
        lookup_url("brk-b").as_deref(),
        Some("https://query1.finance.yahoo.com/v8/finance/chart/BRK-B?interval=1d&range=1d")
    );
}

#[test]
fn empty_quote_has_no_figures() {
    let q: StockQuote<f64> = empty_quote("XYZ");
    assert_eq!(q.id, "XYZ");
    assert_eq!(q.name, "XYZ");
    assert_eq!(q.source, "N/A");
    assert!(q.price.is_none() && q.change.is_none() && q.pct.is_none() && q.prev.is_none());
    assert!(q.open.is_none() && q.high.is_none() && q.low.is_none() && q.volume.is_none());
}

#[test]
fn rows_show_the_watchlist_name() {
    let item = StockItem { id: "TSLA".to_string(), name: "特斯拉".to_string() };
    assert_eq!(resolve_name(&String::new(), &item), "特斯拉");
    assert_eq!(resolve_name(&"TSLA".to_string(), &item), "特斯拉");
    assert_eq!(resolve_name(&"Tesla".to_string(), &item), "特斯拉");
    let same = StockItem { id: "AMD".to_string(), name: "AMD".to_string() };
    assert_eq!(resolve_name(&"Advanced Micro".to_string(), &same), "Advanced Micro");
    assert_eq!(resolve_name(&String::new(), &same), "AMD");
    let mut q: StockQuote<f64> = empty_quote("TSLA");
    q.adopt_name(&item);
    assert_eq!(q.name, "特斯拉");
}

#[test]
fn cmoney_is_asked_before_yahoo_and_the_first_quote_wins() {
    assert_eq!(first_source(), QuoteSource::CMoney);
    let mut found: StockQuote<f64> = empty_quote("TSLA");
    found.price = Some(1.5);
    found.source = "CMONEY".to_string();
    match after_answer(QuoteSource::CMoney, Some(found), "TSLA") {
        Ok(q) => assert_eq!((q.price, q.source.as_str()), (Some(1.5), "CMONEY")),
        Err(_) => panic!("a quote ends the search"),
    }
    match after_answer::<f64>(QuoteSource::CMoney, None, "TSLA") {
        Err(next) => assert_eq!(next, QuoteSource::Yahoo),
        Ok(_) => panic!("Yahoo is asked next"),
    }
    match after_answer::<f64>(QuoteSource::Yahoo, None, "TSLA") {
        Ok(q) => {
            assert_eq!((q.id.as_str(), q.name.as_str(), q.source.as_str()), ("TSLA", "TSLA", "N/A"));
            assert!(q.price.is_none());
        }
        Err(_) => panic!("no source is left after Yahoo"),
    }
}
