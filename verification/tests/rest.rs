use std::collections::HashMap;

use polygon_client::rest::{RESTClient, DEFAULT_API_URL};
use polygon_client::types::TickType;

const BASE: &str = "https://api.polygon.io";

fn client() -> RESTClient {
    RESTClient::new(Some("key"), None, None, None)
}

#[test]
fn new_prefers_explicit_key() {
    let c = RESTClient::new(Some("explicit"), Some(30), None, Some("from-env".to_string()));
    assert_eq!(c.auth_key, "explicit");
    assert_eq!(c.api_url, DEFAULT_API_URL);
    assert_eq!(c.api_url, "https://api.polygon.io");
    assert_eq!(c.timeout, Some(30));
}

#[test]
fn new_falls_back_to_env_key() {
    let c = RESTClient::new(None, None, None, Some("from-env".to_string()));
    assert_eq!(c.auth_key, "from-env");
    assert_eq!(c.timeout, None);
}

#[test]
fn new_uses_env_api_url() {
    let c = RESTClient::new(Some("k"), None, Some("http://localhost:8080".to_string()), None);
    assert_eq!(c.api_url, "http://localhost:8080");
    let q = HashMap::new();
    let req = c.reference_markets(&q);
    assert_eq!(req.url, "http://localhost:8080/v2/reference/markets");
}

#[test]
fn request_carries_key_and_query() {
    let c = client();
    let mut q = HashMap::new();
    q.insert("ticker", "MSFT");
    let req = c.reference_tickers(&q);
    assert_eq!(req.url, format!("{}/v3/reference/tickers", BASE));
    assert_eq!(req.auth_key, "key");
    assert_eq!(req.query_params.len(), 1);
    assert_eq!(req.query_params["ticker"], "MSFT");
}

#[test]
fn reference_urls() {
    let c = client();
    let q = HashMap::new();
    assert_eq!(c.reference_tickers(&q).url, "https://api.polygon.io/v3/reference/tickers");
    assert_eq!(c.reference_ticker_types(&q).url, "https://api.polygon.io/v2/reference/types");
    assert_eq!(
        c.reference_ticker_details("MSFT", &q).url,
        "https://api.polygon.io/v1/meta/symbols/MSFT/company"
    );
    assert_eq!(
        c.reference_ticker_details_vx("MSFT", &q).url,
        "https://api.polygon.io/vX/reference/tickers/MSFT"
    );
    assert_eq!(c.reference_ticker_news(&q).url, "https://api.polygon.io/v2/reference/news");
    assert_eq!(c.reference_markets(&q).url, "https://api.polygon.io/v2/reference/markets");
    assert_eq!(c.reference_locales(&q).url, "https://api.polygon.io/v2/reference/locales");
    assert_eq!(
        c.reference_stock_splits("MSFT", &q).url,
        "https://api.polygon.io/v2/reference/splits/MSFT"
    );
    assert_eq!(
        c.reference_stock_dividends("MSFT", &q).url,
        "https://api.polygon.io/v2/reference/dividends/MSFT"
    );
    assert_eq!(
        c.reference_stock_financials("AAPL", &q).url,
        "https://api.polygon.io/v2/reference/financials/AAPL"
    );
    assert_eq!(
        c.reference_stock_financials_vx(&q).url,
        "https://api.polygon.io/vX/reference/financials"
    );
    assert_eq!(
        c.reference_market_holidays(&q).url,
        "https://api.polygon.io/v1/marketstatus/upcoming"
    );
    assert_eq!(c.reference_market_status(&q).url, "https://api.polygon.io/v1/marketstatus/now");
}

#[test]
fn stock_equities_urls() {
    let c = client();
    let q = HashMap::new();
    assert_eq!(c.stock_equities_exchanges(&q).url, "https://api.polygon.io/v1/meta/exchanges");
    assert_eq!(
        c.stock_equities_condition_mappings(TickType::Trades, &q).url,
        "https://api.polygon.io/v1/meta/conditions/trades"
    );
    assert_eq!(
        c.stock_equities_condition_mappings(TickType::Quotes, &q).url,
        "https://api.polygon.io/v1/meta/conditions/quotes"
    );
    assert_eq!(
        c.stock_equities_historic_trades("MSFT", &q).url,
        "https://api.polygon.io/v2/last/trade/MSFT"
    );
    assert_eq!(
        c.stock_equities_last_quote_for_a_symbol("MSFT", &q).url,
        "https://api.polygon.io/v2/last/nbbo/MSFT"
    );
    assert_eq!(
        c.stock_equities_daily_open_close("MSFT", "2020-10-14", &q).url,
        "https://api.polygon.io/v1/open-close/MSFT/2020-10-14"
    );
    assert_eq!(
        c.stock_equities_aggregates("MSFT", 1, "day", "2020-10-14", "2020-10-14", &q).url,
        "https://api.polygon.io/v2/aggs/ticker/MSFT/range/1/day/2020-10-14/2020-10-14"
    );
    assert_eq!(
        c.stock_equities_grouped_daily("us", "stocks", "2020-10-14", &q).url,
        "https://api.polygon.io/v2/aggs/grouped/locale/us/market/stocks/2020-10-14"
    );
    assert_eq!(
        c.stock_equities_previous_close("MSFT", &q).url,
        "https://api.polygon.io/v2/aggs/ticker/MSFT/prev"
    );
    assert_eq!(
        c.stock_equities_snapshot_all_tickers("us", "stocks", &q).url,
        "https://api.polygon.io/v2/snapshot/locale/us/markets/stocks/tickers"
    );
    assert_eq!(
        c.stock_equities_snapshot_single_ticker("us", "stocks", "MSFT", &q).url,
        "https://api.polygon.io/v2/snapshot/locale/us/markets/stocks/tickers/MSFT"
    );
    assert_eq!(
        c.stock_equities_snapshot_gainers_losers("us", "stocks", "gainers", &q).url,
        "https://api.polygon.io/v2/snapshot/locale/us/markets/stocks/gainers"
    );
}

#[test]
fn crypto_urls() {
    let c = client();
    let q = HashMap::new();
    assert_eq!(
        c.crypto_crypto_exchanges(&q).url,
        "https://api.polygon.io/v1/meta/crypto-exchanges"
    );
}

#[test]
fn aggregates_multiplier_is_decimal() {
    let c = client();
    let q = HashMap::new();
    for m in [0u32, 5, 10, 99, 100, 4096, u32::MAX] {
        let req = c.stock_equities_aggregates("X", m, "minute", "a", "b", &q);
        assert_eq!(req.url, format!("{}/v2/aggs/ticker/X/range/{}/minute/a/b", BASE, m));
    }
}

#[test]
fn every_request_under_base_url() {
    let c = RESTClient::new(Some("k"), None, Some("http://h".to_string()), None);
    let q = HashMap::new();
    let urls = vec![
        c.reference_tickers(&q).url,
        c.reference_ticker_details("T", &q).url,
        c.stock_equities_aggregates("T", 3, "day", "f", "t", &q).url,
        c.stock_equities_condition_mappings(TickType::Quotes, &q).url,
        c.crypto_crypto_exchanges(&q).url,
    ];
    for u in urls {
        assert!(u.starts_with("http://h/"));
    }
}

#[test]
fn different_tickers_different_urls() {
    let c = client();
    let q = HashMap::new();
    let a = c.reference_ticker_details("MSFT", &q).url;
    let b = c.reference_ticker_details("AAPL", &q).url;
    assert_ne!(a, b);
    let a = c.stock_equities_aggregates("MSFT", 1, "day", "f", "t", &q).url;
    let b = c.stock_equities_aggregates("MSFT", 11, "day", "f", "t", &q).url;
    assert_ne!(a, b);
    let a = c.stock_equities_condition_mappings(TickType::Trades, &q).url;
    let b = c.stock_equities_condition_mappings(TickType::Quotes, &q).url;
    assert_ne!(a, b);
}

#[test]
fn tick_type_names() {
    assert_eq!(TickType::Trades.to_string(), "Trades");
    assert_eq!(TickType::Quotes.to_string(), "Quotes");
}
