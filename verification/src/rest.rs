//! Client for the [polygon.io](https://polygon.io) REST API.
//!
//! # Authentication
//!
//! Use an [API key](https://polygon.io/dashboard/api-keys) to authenticate.
//! It is given through the `auth_key` parameter of [`RESTClient::new()`] or,
//! when that is `None`, through the value of the `POLYGON_AUTH_KEY`
//! environment variable, which the caller reads and hands in.
//!
//! Each endpoint method returns the [`Request`] for that endpoint: the full
//! URL (the client's base URL followed by the endpoint's path), the API key
//! to send as a bearer token, and the query parameters to append.
use std::collections::HashMap;

use vstd::prelude::*;

use crate::text::{ascii_lower, decimal_digits, lemma_decimal_injective, push_decimal, to_ascii_lower};
use crate::types::{tick_type_name, TickType};

verus! {

/// Base URL used when `POLYGON_API_URL` is not set.
pub const DEFAULT_API_URL: &'static str = "https://api.polygon.io";

/// Path of the aggregates endpoint for the given ticker, multiplier,
/// timespan and date range.
pub open spec fn aggregates_path(
    stocks_ticker: Seq<char>,
    multiplier: u32,
    timespan: Seq<char>,
    from: Seq<char>,
    to: Seq<char>,
) -> Seq<char> {
    "/v2/aggs/ticker/"@ + stocks_ticker + "/range/"@ + decimal_digits(multiplier as nat) + "/"@ + timespan
        + "/"@ + from + "/"@ + to
}

/// A configured polygon.io client.
pub struct RESTClient {
    pub auth_key: String,
    pub api_url: String,
    pub timeout: Option<u32>,
}

/// An HTTP `GET` request to the polygon.io API.
pub struct Request<'a> {
    /// Full URL: base URL followed by the endpoint's path.
    pub url: String,
    /// API key, sent as a bearer token.
    pub auth_key: &'a str,
    /// Query parameters, appended to the URL.
    pub query_params: &'a HashMap<&'a str, &'a str>,
}

impl RESTClient {
    /// `req` is the request for the endpoint at `path` under this client's
    /// base URL, authenticated with this client's key and carrying
    /// `query_params`.
    pub open spec fn requests(
        &self,
        req: &Request,
        path: Seq<char>,
        query_params: &HashMap<&str, &str>,
    ) -> bool {
        &&& req.url@ == self.api_url@ + path
        &&& req.auth_key@ == self.auth_key@
        &&& req.query_params == query_params
    }

    /// Returns a new REST client.
    ///
    /// The `auth_key` parameter optionally provides the API key to use for
    /// authentication. If `None` is provided, then `env_auth_key`, the value
    /// of the `POLYGON_AUTH_KEY` environment variable, is used; at least one
    /// of the two must be present. The base URL is `env_api_url`, the value
    /// of the `POLYGON_API_URL` environment variable, or [`DEFAULT_API_URL`]
    /// when that is unset.
    pub fn new(
        auth_key: Option<&str>,
        timeout: Option<u32>,
        env_api_url: Option<String>,
        env_auth_key: Option<String>,
    ) -> (client: Self)
        requires
            auth_key is Some || env_auth_key is Some,
        ensures
            client.api_url@ == (match env_api_url {
                Some(u) => u@,
                None => DEFAULT_API_URL@,
            }),
            client.auth_key@ == (match auth_key {
                Some(k) => k@,
                None => env_auth_key->Some_0@,
            }),
            client.timeout == timeout,
    {
        let api_url = match env_api_url {
            Some(v) => v,
            None => String::from_str(DEFAULT_API_URL),
        };
        let auth_key_actual = match auth_key {
            Some(v) => String::from_str(v),
            None => match env_auth_key {
                Some(v) => v,
                None => unreached(),
            },
        };
        RESTClient { auth_key: auth_key_actual, api_url: api_url, timeout: timeout }
    }

    /// The request for the endpoint at `uri`.
    fn request_for<'a>(
        &'a self,
        uri: &str,
        query_params: &'a HashMap<&'a str, &'a str>,
    ) -> (req: Request<'a>)
        ensures
            self.requests(&req, uri@, query_params),
            req.url@ == self.api_url@ + uri@,
            req.auth_key@ == self.auth_key@,
            req.query_params == query_params,
    {
        let mut url = String::from_str(self.api_url.as_str());
        url.append(uri);
        Request { url: url, auth_key: self.auth_key.as_str(), query_params: query_params }
    }

    //
    // Reference APIs
    //

    /// Query all ticker symbols supported by polygon.io using the
    /// [/v3/reference/tickers](https://polygon.io/docs/get_v3_reference_tickers_anchor)
    /// API.
    pub fn reference_tickers<'a>(&'a self, query_params: &'a HashMap<&'a str, &'a str>) -> (req: Request<'a>)
        ensures
            self.requests(&req, "/v3/reference/tickers"@, query_params),
            req.url@ == self.api_url@ + "/v3/reference/tickers"@,
            req.auth_key@ == self.auth_key@,
            req.query_params == query_params,
    {
        self.request_for("/v3/reference/tickers", query_params)
    }

    /// Get a mapping of ticker types to their descriptive names using the
    /// [/v2/reference/types](https://polygon.io/docs/get_v2_reference_types_anchor)
    /// API.
    pub fn reference_ticker_types<'a>(&'a self, query_params: &'a HashMap<&'a str, &'a str>) -> (req: Request<'a>)
        ensures
            self.requests(&req, "/v2/reference/types"@, query_params),
            req.url@ == self.api_url@ + "/v2/reference/types"@,
            req.auth_key@ == self.auth_key@,
            req.query_params == query_params,
    {
        self.request_for("/v2/reference/types", query_params)
    }

    /// Get details for a ticker symbol's company/entity using the
    /// [/v1/meta/symbols/{stocks_ticker}/company](https://polygon.io/docs/get_v1_meta_symbols__stocksTicker__company_anchor)
    /// API.
    pub fn reference_ticker_details<'a>(
        &'a self,
        stocks_ticker: &str,
        query_params: &'a HashMap<&'a str, &'a str>,
    ) -> (req: Request<'a>)
        ensures
            self.requests(&req, "/v1/meta/symbols/"@ + stocks_ticker@ + "/company"@, query_params),
            req.url@ == self.api_url@ + "/v1/meta/symbols/"@ + stocks_ticker@ + "/company"@,
            req.auth_key@ == self.auth_key@,
            req.query_params == query_params,
    {
        let mut uri = String::from_str("/v1/meta/symbols/");
        uri.append(stocks_ticker);
        uri.append("/company");
        self.request_for(uri.as_str(), query_params)
    }

    /// Get details for a ticker symbol's company/entity using the
    /// [/vX/reference/tickers/{stocks_ticker}](https://polygon.io/docs/get_vX_reference_tickers__ticker__anchor)
    /// API.
    pub fn reference_ticker_details_vx<'a>(
        &'a self,
        stocks_ticker: &str,
        query_params: &'a HashMap<&'a str, &'a str>,
    ) -> (req: Request<'a>)
        ensures
            self.requests(&req, "/vX/reference/tickers/"@ + stocks_ticker@, query_params),
            req.url@ == self.api_url@ + "/vX/reference/tickers/"@ + stocks_ticker@,
            req.auth_key@ == self.auth_key@,
            req.query_params == query_params,
    {
        let mut uri = String::from_str("/vX/reference/tickers/");
        uri.append(stocks_ticker);
        self.request_for(uri.as_str(), query_params)
    }

    /// Get the most recent news articles related to a stock ticker symbol using
    /// the [/v2/reference/news](https://polygon.io/docs/get_v2_reference_news_anchor) API.
    pub fn reference_ticker_news<'a>(&'a self, query_params: &'a HashMap<&'a str, &'a str>) -> (req: Request<'a>)
        ensures
            self.requests(&req, "/v2/reference/news"@, query_params),
            req.url@ == self.api_url@ + "/v2/reference/news"@,
            req.auth_key@ == self.auth_key@,
            req.query_params == query_params,
    {
        self.request_for("/v2/reference/news", query_params)
    }

    /// Get a list of markets that are currently supported by polygon.io using
    /// the [/v2/reference/markets](https://polygon.io/docs/get_v2_reference_markets_anchor) API.
    pub fn reference_markets<'a>(&'a self, query_params: &'a HashMap<&'a str, &'a str>) -> (req: Request<'a>)
        ensures
            self.requests(&req, "/v2/reference/markets"@, query_params),
            req.url@ == self.api_url@ + "/v2/reference/markets"@,
            req.auth_key@ == self.auth_key@,
            req.query_params == query_params,
    {
        self.request_for("/v2/reference/markets", query_params)
    }

    /// Get a list of locales currently supported by polygon.io using the
    /// [/v2/reference/locales](https://polygon.io/docs/get_v2_reference_locales_anchor) API.
    pub fn reference_locales<'a>(&'a self, query_params: &'a HashMap<&'a str, &'a str>) -> (req: Request<'a>)
        ensures
            self.requests(&req, "/v2/reference/locales"@, query_params),
            req.url@ == self.api_url@ + "/v2/reference/locales"@,
            req.auth_key@ == self.auth_key@,
            req.query_params == query_params,
    {
        self.request_for("/v2/reference/locales", query_params)
    }

    /// Get a list of historical stock splits for a ticker symbol using the
    /// [/v2/reference/splits/{stocks_ticker}](https://polygon.io/docs/get_v2_reference_splits__stocksTicker__anchor) API.
    pub fn reference_stock_splits<'a>(
        &'a self,
        stocks_ticker: &str,
        query_params: &'a HashMap<&'a str, &'a str>,
    ) -> (req: Request<'a>)
        ensures
            self.requests(&req, "/v2/reference/splits/"@ + stocks_ticker@, query_params),
            req.url@ == self.api_url@ + "/v2/reference/splits/"@ + stocks_ticker@,
            req.auth_key@ == self.auth_key@,
            req.query_params == query_params,
    {
        let mut uri = String::from_str("/v2/reference/splits/");
        uri.append(stocks_ticker);
        self.request_for(uri.as_str(), query_params)
    }

    /// Get a list of historical dividends for a stock using the
    /// [/v2/reference/dividends/{stocks_ticker}](https://polygon.io/docs/get_v2_reference_dividends__stocksTicker__anchor) API.
    pub fn reference_stock_dividends<'a>(
        &'a self,
        stocks_ticker: &str,
        query_params: &'a HashMap<&'a str, &'a str>,
    ) -> (req: Request<'a>)
        ensures
            self.requests(&req, "/v2/reference/dividends/"@ + stocks_ticker@, query_params),
            req.url@ == self.api_url@ + "/v2/reference/dividends/"@ + stocks_ticker@,
            req.auth_key@ == self.auth_key@,
            req.query_params == query_params,
    {
        let mut uri = String::from_str("/v2/reference/dividends/");
        uri.append(stocks_ticker);
        self.request_for(uri.as_str(), query_params)
    }

    /// Get historical financial data for a stock ticker using the
    /// [/v2/reference/financials/{stocks_ticker}](https://polygon.io/docs/get_v2_reference_financials__stocksTicker__anchor) API.
    pub fn reference_stock_financials<'a>(
        &'a self,
        stocks_ticker: &str,
        query_params: &'a HashMap<&'a str, &'a str>,
    ) -> (req: Request<'a>)
        ensures
            self.requests(&req, "/v2/reference/financials/"@ + stocks_ticker@, query_params),
            req.url@ == self.api_url@ + "/v2/reference/financials/"@ + stocks_ticker@,
            req.auth_key@ == self.auth_key@,
            req.query_params == query_params,
    {
        let mut uri = String::from_str("/v2/reference/financials/");
        uri.append(stocks_ticker);
        self.request_for(uri.as_str(), query_params)
    }

    /// Get historical financial data for a stock ticker using the
    /// [/vX/reference/financials](https://polygon.io/docs/get_vX_reference_financials_anchor) API.
    pub fn reference_stock_financials_vx<'a>(&'a self, query_params: &'a HashMap<&'a str, &'a str>) -> (req: Request<'a>)
        ensures
            self.requests(&req, "/vX/reference/financials"@, query_params),
            req.url@ == self.api_url@ + "/vX/reference/financials"@,
            req.auth_key@ == self.auth_key@,
            req.query_params == query_params,
    {
        self.request_for("/vX/reference/financials", query_params)
    }

    /// Get upcoming market holidays and their open/close items using the
    /// [/v1/marketstatus/upcoming](https://polygon.io/docs/get_v1_marketstatus_upcoming_anchor) API.
    pub fn reference_market_holidays<'a>(&'a self, query_params: &'a HashMap<&'a str, &'a str>) -> (req: Request<'a>)
        ensures
            self.requests(&req, "/v1/marketstatus/upcoming"@, query_params),
            req.url@ == self.api_url@ + "/v1/marketstatus/upcoming"@,
            req.auth_key@ == self.auth_key@,
            req.query_params == query_params,
    {
        self.request_for("/v1/marketstatus/upcoming", query_params)
    }

    /// Get the current trading status of the exchanges and overall financial
    /// markets using the [/v1/marketstatus/now](https://polygon.io/docs/get_v1_marketstatus_now_anchor) API.
    pub fn reference_market_status<'a>(&'a self, query_params: &'a HashMap<&'a str, &'a str>) -> (req: Request<'a>)
        ensures
            self.requests(&req, "/v1/marketstatus/now"@, query_params),
            req.url@ == self.api_url@ + "/v1/marketstatus/now"@,
            req.auth_key@ == self.auth_key@,
            req.query_params == query_params,
    {
        self.request_for("/v1/marketstatus/now", query_params)
    }

    //
    // Stock equities APIs
    //

    /// Get a list of stock exchanges which are supported by polygon.io using
    /// the [/v1/meta/exchanges](https://polygon.io/docs/get_v1_meta_exchanges_anchor) API.
    pub fn stock_equities_exchanges<'a>(&'a self, query_params: &'a HashMap<&'a str, &'a str>) -> (req: Request<'a>)
        ensures
            self.requests(&req, "/v1/meta/exchanges"@, query_params),
            req.url@ == self.api_url@ + "/v1/meta/exchanges"@,
            req.auth_key@ == self.auth_key@,
            req.query_params == query_params,
    {
        self.request_for("/v1/meta/exchanges", query_params)
    }

    /// Get a unified numerical mapping for conditions on trades and quotes
    /// using the [/v1/meta/conditions/{tick_type}](https://polygon.io/docs/get_v1_meta_conditions__ticktype__anchor) API.
    pub fn stock_equities_condition_mappings<'a>(
        &'a self,
        tick_type: TickType,
        query_params: &'a HashMap<&'a str, &'a str>,
    ) -> (req: Request<'a>)
        ensures
            self.requests(
                &req,
                "/v1/meta/conditions/"@ + ascii_lower(tick_type_name(tick_type)),
                query_params,
            ),
            req.url@ == self.api_url@ + "/v1/meta/conditions/"@ + (match tick_type {
                TickType::Trades => "trades"@,
                TickType::Quotes => "quotes"@,
            }),
            req.auth_key@ == self.auth_key@,
            req.query_params == query_params,
    {
        proof {
            lemma_tick_type_segments();
        }
        let name = tick_type.to_string();
        let lower = to_ascii_lower(name.as_str());
        let mut uri = String::from_str("/v1/meta/conditions/");
        uri.append(lower.as_str());
        self.request_for(uri.as_str(), query_params)
    }

    /// Get the most recent trade for a given stock using the
    /// [/v2/last/trade/{stocks_ticker}](https://polygon.io/docs/get_v2_last_trade__stocksTicker__anchor) API.
    pub fn stock_equities_historic_trades<'a>(
        &'a self,
        stocks_ticker: &str,
        query_params: &'a HashMap<&'a str, &'a str>,
    ) -> (req: Request<'a>)
        ensures
            self.requests(&req, "/v2/last/trade/"@ + stocks_ticker@, query_params),
            req.url@ == self.api_url@ + "/v2/last/trade/"@ + stocks_ticker@,
            req.auth_key@ == self.auth_key@,
            req.query_params == query_params,
    {
        let mut uri = String::from_str("/v2/last/trade/");
        uri.append(stocks_ticker);
        self.request_for(uri.as_str(), query_params)
    }

    /// Get the most recent NBBO quote tick for a given stock using the
    /// [/v2/last/nbbo/{stocks_ticker}](https://polygon.io/docs/get_v2_last_nbbo__stocksTicker__anchor) API.
    pub fn stock_equities_last_quote_for_a_symbol<'a>(
        &'a self,
        stocks_ticker: &str,
        query_params: &'a HashMap<&'a str, &'a str>,
    ) -> (req: Request<'a>)
        ensures
            self.requests(&req, "/v2/last/nbbo/"@ + stocks_ticker@, query_params),
            req.url@ == self.api_url@ + "/v2/last/nbbo/"@ + stocks_ticker@,
            req.auth_key@ == self.auth_key@,
            req.query_params == query_params,
    {
        let mut uri = String::from_str("/v2/last/nbbo/");
        uri.append(stocks_ticker);
        self.request_for(uri.as_str(), query_params)
    }

    /// Get the open, close, and afterhours prices of a stock symbol on a
    /// certain date using the [/v1/open-close/{stocks_ticker}/{date}](https://polygon.io/docs/get_v1_open-close__stocksTicker___date__anchor) API.
    pub fn stock_equities_daily_open_close<'a>(
        &'a self,
        stocks_ticker: &str,
        date: &str,
        query_params: &'a HashMap<&'a str, &'a str>,
    ) -> (req: Request<'a>)
        ensures
            self.requests(&req, "/v1/open-close/"@ + stocks_ticker@ + "/"@ + date@, query_params),
            req.url@ == self.api_url@ + "/v1/open-close/"@ + stocks_ticker@ + "/"@ + date@,
            req.auth_key@ == self.auth_key@,
            req.query_params == query_params,
    {
        let mut uri = String::from_str("/v1/open-close/");
        uri.append(stocks_ticker);
        uri.append("/");
        uri.append(date);
        self.request_for(uri.as_str(), query_params)
    }

    /// Get aggregate bars for a stock over a given date range in custom time
    /// window sizes using the [/v2/aggs/ticker/{stocks_ticker}/range/{multiplier}/{timespan}/{from}/{to}](https://polygon.io/docs/get_v2_aggs_ticker__stocksTicker__range__multiplier___timespan___from___to__anchor) API.
    pub fn stock_equities_aggregates<'a>(
        &'a self,
        stocks_ticker: &str,
        multiplier: u32,
        timespan: &str,
        from: &str,
        to: &str,
        query_params: &'a HashMap<&'a str, &'a str>,
    ) -> (req: Request<'a>)
        ensures
            self.requests(
                &req,
                aggregates_path(stocks_ticker@, multiplier, timespan@, from@, to@),
                query_params,
            ),
            req.url@ == self.api_url@ + "/v2/aggs/ticker/"@ + stocks_ticker@ + "/range/"@
                + decimal_digits(multiplier as nat) + "/"@ + timespan@ + "/"@ + from@ + "/"@ + to@,
            req.auth_key@ == self.auth_key@,
            req.query_params == query_params,
    {
        let mut uri = String::from_str("/v2/aggs/ticker/");
        uri.append(stocks_ticker);
        uri.append("/range/");
        push_decimal(&mut uri, multiplier);
        uri.append("/");
        uri.append(timespan);
        uri.append("/");
        uri.append(from);
        uri.append("/");
        uri.append(to);
        self.request_for(uri.as_str(), query_params)
    }

    /// Get the daily open, high, low, and close for the entire stocks and
    /// equities market using the [/v2/aggs/grouped/locale/{locale}/market/{market}/{date}](https://polygon.io/docs/get_v2_aggs_grouped_locale_us_market_stocks__date__anchor) API.
    pub fn stock_equities_grouped_daily<'a>(
        &'a self,
        locale: &str,
        market: &str,
        date: &str,
        query_params: &'a HashMap<&'a str, &'a str>,
    ) -> (req: Request<'a>)
        ensures
            self.requests(&req, "/v2/aggs/grouped/locale/"@ + locale@ + "/market/"@ + market@ + "/"@ + date@, query_params),
            req.url@ == self.api_url@ + "/v2/aggs/grouped/locale/"@ + locale@ + "/market/"@ + market@ + "/"@ + date@,
            req.auth_key@ == self.auth_key@,
            req.query_params == query_params,
    {
        let mut uri = String::from_str("/v2/aggs/grouped/locale/");
        uri.append(locale);
        uri.append("/market/");
        uri.append(market);
        uri.append("/");
        uri.append(date);
        self.request_for(uri.as_str(), query_params)
    }

    /// Get the previous day's open, high, low, and close for the specified
    /// stock ticker using the [/v2/aggs/ticker/{stocks_ticker}/prev](https://polygon.io/docs/get_v2_aggs_ticker__stocksTicker__prev_anchor) API.
    pub fn stock_equities_previous_close<'a>(
        &'a self,
        stocks_ticker: &str,
        query_params: &'a HashMap<&'a str, &'a str>,
    ) -> (req: Request<'a>)
        ensures
            self.requests(&req, "/v2/aggs/ticker/"@ + stocks_ticker@ + "/prev"@, query_params),
            req.url@ == self.api_url@ + "/v2/aggs/ticker/"@ + stocks_ticker@ + "/prev"@,
            req.auth_key@ == self.auth_key@,
            req.query_params == query_params,
    {
        let mut uri = String::from_str("/v2/aggs/ticker/");
        uri.append(stocks_ticker);
        uri.append("/prev");
        self.request_for(uri.as_str(), query_params)
    }

    /// Get the current minute, day, and previous day's aggregate, as well as
    /// the last trade and quote for all traded stock symbols using the [/v2/snapshot/locale/{locale}/markets/{market}/tickers](https://polygon.io/docs/get_v2_snapshot_locale_us_markets_stocks_tickers_anchor) API.
    pub fn stock_equities_snapshot_all_tickers<'a>(
        &'a self,
        locale: &str,
        market: &str,
        query_params: &'a HashMap<&'a str, &'a str>,
    ) -> (req: Request<'a>)
        ensures
            self.requests(&req, "/v2/snapshot/locale/"@ + locale@ + "/markets/"@ + market@ + "/tickers"@, query_params),
            req.url@ == self.api_url@ + "/v2/snapshot/locale/"@ + locale@ + "/markets/"@ + market@ + "/tickers"@,
            req.auth_key@ == self.auth_key@,
            req.query_params == query_params,
    {
        let mut uri = String::from_str("/v2/snapshot/locale/");
        uri.append(locale);
        uri.append("/markets/");
        uri.append(market);
        uri.append("/tickers");
        self.request_for(uri.as_str(), query_params)
    }

    /// Get the current minute, day, and previous day's aggregate, as well as
    /// the last trade and quote for a single traded stock ticker using the [/v2/snapshot/locale/{locale}/markets/{market}/tickers/{ticker}](https://polygon.io/docs/get_v2_snapshot_locale_us_markets_stocks_tickers__stocksTicker__anchor) API.
    pub fn stock_equities_snapshot_single_ticker<'a>(
        &'a self,
        locale: &str,
        market: &str,
        ticker: &str,
        query_params: &'a HashMap<&'a str, &'a str>,
    ) -> (req: Request<'a>)
        ensures
            self.requests(&req, "/v2/snapshot/locale/"@ + locale@ + "/markets/"@ + market@ + "/tickers/"@ + ticker@, query_params),
            req.url@ == self.api_url@ + "/v2/snapshot/locale/"@ + locale@ + "/markets/"@ + market@ + "/tickers/"@ + ticker@,
            req.auth_key@ == self.auth_key@,
            req.query_params == query_params,
    {
        let mut uri = String::from_str("/v2/snapshot/locale/");
        uri.append(locale);
        uri.append("/markets/");
        uri.append(market);
        uri.append("/tickers/");
        uri.append(ticker);
        self.request_for(uri.as_str(), query_params)
    }

    /// Get the current top 20 gainers or losers of the day in the
    /// stocks/equities markets using the [/v2/snapshot/locale/{locale}/markets/{market}/{direction}](https://polygon.io/docs/get_v2_snapshot_locale_us_markets_stocks__direction__anchor) API.
    pub fn stock_equities_snapshot_gainers_losers<'a>(
        &'a self,
        locale: &str,
        market: &str,
        direction: &str,
        query_params: &'a HashMap<&'a str, &'a str>,
    ) -> (req: Request<'a>)
        ensures
            self.requests(&req, "/v2/snapshot/locale/"@ + locale@ + "/markets/"@ + market@ + "/"@ + direction@, query_params),
            req.url@ == self.api_url@ + "/v2/snapshot/locale/"@ + locale@ + "/markets/"@ + market@ + "/"@ + direction@,
            req.auth_key@ == self.auth_key@,
            req.query_params == query_params,
    {
        let mut uri = String::from_str("/v2/snapshot/locale/");
        uri.append(locale);
        uri.append("/markets/");
        uri.append(market);
        uri.append("/");
        uri.append(direction);
        self.request_for(uri.as_str(), query_params)
    }

    //
    // Crypto APIs
    //

    /// Get a list of cryptocurrency exchanges which are supported by polygon.io
    /// using the [/v1/meta/crypto-exchanges](https://polygon.io/docs/get_v1_meta_crypto-exchanges_anchor) API.
    pub fn crypto_crypto_exchanges<'a>(&'a self, query_params: &'a HashMap<&'a str, &'a str>) -> (req: Request<'a>)
        ensures
            self.requests(&req, "/v1/meta/crypto-exchanges"@, query_params),
            req.url@ == self.api_url@ + "/v1/meta/crypto-exchanges"@,
            req.auth_key@ == self.auth_key@,
            req.query_params == query_params,
    {
        self.request_for("/v1/meta/crypto-exchanges", query_params)
    }
}

/// Every request a client builds goes to that client's base URL: the URL
/// begins with the base URL, and the rest is the endpoint's path.
pub proof fn lemma_request_under_base(
    client: &RESTClient,
    req: &Request,
    path: Seq<char>,
    query_params: &HashMap<&str, &str>,
)
    requires
        client.requests(req, path, query_params),
    ensures
        req.url@.len() == client.api_url@.len() + path.len(),
        req.url@.take(client.api_url@.len() as int) == client.api_url@,
        req.url@.skip(client.api_url@.len() as int) == path,
{
    assert(req.url@.take(client.api_url@.len() as int) =~= client.api_url@);
    assert(req.url@.skip(client.api_url@.len() as int) =~= path);
}

/// A path segment can be read back from the URL it was put in: with the same
/// client, prefix and suffix, requests for two different segments (two
/// tickers, say) go to two different URLs.
pub proof fn lemma_segment_injective(
    client: &RESTClient,
    req1: &Request,
    req2: &Request,
    prefix: Seq<char>,
    seg1: Seq<char>,
    seg2: Seq<char>,
    suffix: Seq<char>,
    query_params: &HashMap<&str, &str>,
)
    requires
        client.requests(req1, prefix + seg1 + suffix, query_params),
        client.requests(req2, prefix + seg2 + suffix, query_params),
        req1.url@ == req2.url@,
    ensures
        seg1 == seg2,
{
    let b: int = (client.api_url@.len() + prefix.len()) as int;
    assert(req1.url@.len() == client.api_url@.len() + (prefix + seg1 + suffix).len());
    assert(req2.url@.len() == client.api_url@.len() + (prefix + seg2 + suffix).len());
    assert(seg1.len() == seg2.len());
    assert(seg1 =~= req1.url@.subrange(b, b + seg1.len()));
    assert(seg2 =~= req2.url@.subrange(b, b + seg2.len()));
}

/// The multiplier of an aggregates request can be read back from its URL:
/// with everything else the same, two different multipliers give two
/// different URLs.
pub proof fn lemma_aggregates_multiplier_injective(
    client: &RESTClient,
    req1: &Request,
    req2: &Request,
    stocks_ticker: Seq<char>,
    multiplier1: u32,
    multiplier2: u32,
    timespan: Seq<char>,
    from: Seq<char>,
    to: Seq<char>,
    query_params: &HashMap<&str, &str>,
)
    requires
        client.requests(
            req1,
            aggregates_path(stocks_ticker, multiplier1, timespan, from, to),
            query_params,
        ),
        client.requests(
            req2,
            aggregates_path(stocks_ticker, multiplier2, timespan, from, to),
            query_params,
        ),
        req1.url@ == req2.url@,
    ensures
        multiplier1 == multiplier2,
{
    let prefix = "/v2/aggs/ticker/"@ + stocks_ticker + "/range/"@;
    let suffix = "/"@ + timespan + "/"@ + from + "/"@ + to;
    let d1 = decimal_digits(multiplier1 as nat);
    let d2 = decimal_digits(multiplier2 as nat);
    assert(aggregates_path(stocks_ticker, multiplier1, timespan, from, to) =~= prefix + d1 + suffix);
    assert(aggregates_path(stocks_ticker, multiplier2, timespan, from, to) =~= prefix + d2 + suffix);
    lemma_segment_injective(client, req1, req2, prefix, d1, d2, suffix, query_params);
    lemma_decimal_injective(multiplier1 as nat, multiplier2 as nat);
}

/// The condition-mapping path segment of each tick type: `trades` and
/// `quotes`, so the two tick types are requested at different URLs.
pub proof fn lemma_tick_type_segments()
    ensures
        ascii_lower(tick_type_name(TickType::Trades)) == "trades"@,
        ascii_lower(tick_type_name(TickType::Quotes)) == "quotes"@,
        ascii_lower(tick_type_name(TickType::Trades)) != ascii_lower(tick_type_name(TickType::Quotes)),
{
    reveal_strlit("Trades");
    reveal_strlit("Quotes");
    reveal_strlit("trades");
    reveal_strlit("quotes");
    assert(ascii_lower(tick_type_name(TickType::Trades)) =~= "trades"@);
    assert(ascii_lower(tick_type_name(TickType::Quotes)) =~= "quotes"@);
    assert(ascii_lower(tick_type_name(TickType::Trades))[0] != ascii_lower(tick_type_name(TickType::Quotes))[0]);
}


/// Every request a client builds is authenticated with that client's API key
/// as its bearer token and carries exactly the caller's query parameters,
/// whatever the endpoint's path.
pub proof fn lemma_request_authenticated(
    client: &RESTClient,
    req: &Request,
    path: Seq<char>,
    query_params: &HashMap<&str, &str>,
)
    requires
        client.requests(req, path, query_params),
    ensures
        req.auth_key@ == client.auth_key@,
        req.query_params == query_params,
{
}

/// The end date of an aggregates request can be read back from its URL: the
/// URL ends with `/` + `from` + `/` + `to`, and with everything else the
/// same, two different end dates give two different URLs.
pub proof fn lemma_aggregates_to_injective(
    client: &RESTClient,
    req1: &Request,
    req2: &Request,
    stocks_ticker: Seq<char>,
    multiplier: u32,
    timespan: Seq<char>,
    from: Seq<char>,
    to1: Seq<char>,
    to2: Seq<char>,
)
    requires
        req1.url@ == client.api_url@ + "/v2/aggs/ticker/"@ + stocks_ticker + "/range/"@
            + decimal_digits(multiplier as nat) + "/"@ + timespan + "/"@ + from + "/"@ + to1,
        req2.url@ == client.api_url@ + "/v2/aggs/ticker/"@ + stocks_ticker + "/range/"@
            + decimal_digits(multiplier as nat) + "/"@ + timespan + "/"@ + from + "/"@ + to2,
    ensures
        req1.url@.skip(req1.url@.len() - to1.len()) == to1,
        req1.url@.skip(req1.url@.len() - to1.len() - from.len() - 2)
            == "/"@ + from + "/"@ + to1,
        req1.url@ == req2.url@ ==> to1 == to2,
{
    let head = client.api_url@ + "/v2/aggs/ticker/"@ + stocks_ticker + "/range/"@
        + decimal_digits(multiplier as nat) + "/"@ + timespan;
    let slash = "/"@;
    assert(slash.len() == 1) by {
        reveal_strlit("/");
    }
    assert(req1.url@ =~= head + slash + from + slash + to1);
    assert(req2.url@ =~= head + slash + from + slash + to2);
    assert(req1.url@.skip(req1.url@.len() - to1.len()) =~= to1);
    assert(req1.url@.skip(req1.url@.len() - to1.len() - from.len() - 2) =~= slash + from + slash + to1);
    if req1.url@ == req2.url@ {
        assert(to1.len() == to2.len());
        assert(req2.url@.skip(req2.url@.len() - to2.len()) =~= to2);
    }
}

} // verus!
