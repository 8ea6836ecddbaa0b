use yfinance_rmcp::default_interval;
use yfinance_rmcp::default_period;
use yfinance_rmcp::dispatch::DispatchStep;
use yfinance_rmcp::dispatch::ProviderCall;
use yfinance_rmcp::dispatch::RawRequest;
use yfinance_rmcp::dispatch::ResponseBody;
use yfinance_rmcp::dispatch::complete_historical;
use yfinance_rmcp::dispatch::complete_quote;
use yfinance_rmcp::dispatch::complete_search;
use yfinance_rmcp::dispatch::plan_request;
use yfinance_rmcp::outcome::HandlerOutcome;
use yfinance_rmcp::outcome::OhlcvRecord;
use yfinance_rmcp::outcome::Payload;
use yfinance_rmcp::outcome::ProviderError;
use yfinance_rmcp::outcome::SearchMatch;
use yfinance_rmcp::outcome::historical_outcome;
use yfinance_rmcp::outcome::quote_outcome;
use yfinance_rmcp::outcome::search_outcome;
use yfinance_rmcp::params::ParamValue;
use yfinance_rmcp::params::RawParams;
use yfinance_rmcp::params::ValidationError;
use yfinance_rmcp::params::validate;
use yfinance_rmcp::registry::OpKind;
use yfinance_rmcp::registry::Registry;
use yfinance_rmcp::registry::server_info;

fn str_params(pairs: &[(&str, &str)]) -> RawParams {
    let mut fields: Vec<(String, ParamValue)> = Vec::new();
    for (name, value) in pairs {
        fields.push((name.to_string(), ParamValue::VStr(value.to_string())));
    }
    RawParams { fields }
}

fn request(id: u64, method: &str, params: RawParams) -> RawRequest {
    RawRequest { id, method: method.to_string(), params }
}

fn bar(timestamp: i64, open: &str, high: &str, low: &str, close: &str, volume: u64) -> OhlcvRecord {
    OhlcvRecord {
        timestamp,
        open: open.to_string(),
        high: high.to_string(),
        low: low.to_string(),
        close: close.to_string(),
        volume,
    }
}

fn search_match(symbol: &str, short_name: &str) -> SearchMatch {
    SearchMatch {
        symbol: symbol.to_string(),
        short_name: short_name.to_string(),
        long_name: format!("{} Inc.", short_name),
        exchange: "NMS".to_string(),
        quote_type: "EQUITY".to_string(),
    }
}

#[test]
fn default_period_is_1mo() {
    assert_eq!(default_period(), "1mo");
}

#[test]
fn default_interval_is_1d() {
    assert_eq!(default_interval(), "1d");
}

#[test]
fn server_info_name_and_version() {
    let info = server_info();
    assert_eq!(info.name, "yfinance_rmcp");
    assert_eq!(info.version, "0.1.0");
    assert!(!info.instructions.is_empty());
}

#[test]
fn registry_lists_three_operations() {
    let reg = Registry::new();
    let entries = reg.list();
    assert_eq!(entries.len(), 3);
    assert_eq!(entries[0].name, "get_historical_stock_prices");
    assert_eq!(entries[1].name, "get_stock_quote");
    assert_eq!(entries[2].name, "search_ticker");
    assert!(!entries[0].description.is_empty());
}

#[test]
fn registry_lookup_finds_each_operation() {
    let reg = Registry::new();
    let hist = reg.lookup(&"get_historical_stock_prices".to_string()).unwrap();
    assert!(matches!(hist.kind, OpKind::KindHistorical));
    assert_eq!(hist.schema.len(), 3);
    let quote = reg.lookup(&"get_stock_quote".to_string()).unwrap();
    assert!(matches!(quote.kind, OpKind::KindQuote));
    let search = reg.lookup(&"search_ticker".to_string()).unwrap();
    assert!(matches!(search.kind, OpKind::KindSearch));
    assert!(reg.lookup(&"get_weather".to_string()).is_none());
}

#[test]
fn unknown_operation_yields_error() {
    let reg = Registry::new();
    let req = request(7, "does_not_exist", str_params(&[]));
    match plan_request(&reg, &req) {
        DispatchStep::Respond(env) => {
            assert_eq!(env.id, 7);
            match env.body {
                ResponseBody::BodyError(m) => {
                    assert_eq!(m, "Unknown operation: does_not_exist");
                }
                other => panic!("expected error body, got {:?}", other),
            }
        }
        other => panic!("expected immediate response, got {:?}", other),
    }
    // the registry is untouched: the next request is still served
    let req2 = request(8, "search_ticker", str_params(&[("query", "Apple")]));
    assert!(matches!(plan_request(&reg, &req2), DispatchStep::CallProvider(_)));
}

#[test]
fn missing_ticker_yields_validation_error() {
    let reg = Registry::new();
    let req = request(3, "get_stock_quote", str_params(&[]));
    match plan_request(&reg, &req) {
        DispatchStep::Respond(env) => {
            assert_eq!(env.id, 3);
            assert_eq!(
                env.body,
                ResponseBody::BodyError("Missing required parameter: ticker".to_string())
            );
        }
        other => panic!("expected immediate response, got {:?}", other),
    }
}

#[test]
fn non_string_ticker_yields_validation_error() {
    let reg = Registry::new();
    let params = RawParams { fields: vec![("ticker".to_string(), ParamValue::VInt(5))] };
    let req = request(4, "get_stock_quote", params);
    match plan_request(&reg, &req) {
        DispatchStep::Respond(env) => {
            assert_eq!(
                env.body,
                ResponseBody::BodyError("Invalid type for parameter: ticker".to_string())
            );
        }
        other => panic!("expected immediate response, got {:?}", other),
    }
}

#[test]
fn historical_defaults_applied() {
    let reg = Registry::new();
    let req = request(5, "get_historical_stock_prices", str_params(&[("ticker", "AAPL")]));
    match plan_request(&reg, &req) {
        DispatchStep::CallProvider(ProviderCall::FetchRange { ticker, interval, period }) => {
            assert_eq!(ticker, "AAPL");
            assert_eq!(period, "1mo");
            assert_eq!(interval, "1d");
        }
        other => panic!("expected a range call, got {:?}", other),
    }
}

#[test]
fn historical_explicit_values_passed_verbatim() {
    let reg = Registry::new();
    let req = request(
        6,
        "get_historical_stock_prices",
        str_params(&[("ticker", "MSFT"), ("period", "5y"), ("interval", "1wk")]),
    );
    match plan_request(&reg, &req) {
        DispatchStep::CallProvider(ProviderCall::FetchRange { ticker, interval, period }) => {
            assert_eq!(ticker, "MSFT");
            assert_eq!(period, "5y");
            assert_eq!(interval, "1wk");
        }
        other => panic!("expected a range call, got {:?}", other),
    }
}

#[test]
fn unknown_extra_fields_are_ignored() {
    let reg = Registry::new();
    let req = request(
        9,
        "search_ticker",
        str_params(&[("query", "Apple"), ("verbose", "yes")]),
    );
    match plan_request(&reg, &req) {
        DispatchStep::CallProvider(ProviderCall::SearchText { query }) => {
            assert_eq!(query, "Apple");
        }
        other => panic!("expected a search call, got {:?}", other),
    }
}

#[test]
fn validate_reports_first_offending_field() {
    let reg = Registry::new();
    let entry = reg.lookup(&"get_historical_stock_prices".to_string()).unwrap();
    let bag = str_params(&[]);
    assert_eq!(
        validate(&entry.schema, &bag),
        Err(ValidationError::MissingField("ticker".to_string()))
    );
}

#[test]
fn quote_fixes_daily_interval() {
    let reg = Registry::new();
    let req = request(10, "get_stock_quote", str_params(&[("ticker", "AAPL")]));
    match plan_request(&reg, &req) {
        DispatchStep::CallProvider(ProviderCall::FetchLatest { ticker, interval }) => {
            assert_eq!(ticker, "AAPL");
            assert_eq!(interval, "1d");
        }
        other => panic!("expected a latest-quote call, got {:?}", other),
    }
}

#[test]
fn empty_historical_rows_yield_error() {
    let env = complete_historical(11, &"AAPL".to_string(), Ok(Vec::new()));
    assert_eq!(env.id, 11);
    assert_eq!(env.body, ResponseBody::BodyError("No quote data for AAPL".to_string()));
}

#[test]
fn empty_quote_rows_yield_error() {
    let env = complete_quote(12, &"AAPL".to_string(), Ok(Vec::new()));
    assert_eq!(env.id, 12);
    assert_eq!(env.body, ResponseBody::BodyError("No quote for AAPL".to_string()));
}

#[test]
fn empty_search_yields_empty_success() {
    let env = complete_search(13, &"Apple".to_string(), Ok(Vec::new()));
    assert_eq!(env.id, 13);
    assert_eq!(env.body, ResponseBody::BodyResult(Payload::PaySearch(Vec::new())));
}

#[test]
fn quote_scenario_returns_single_record() {
    let reg = Registry::new();
    let req = request(1, "get_stock_quote", str_params(&[("ticker", "AAPL")]));
    let ticker = match plan_request(&reg, &req) {
        DispatchStep::CallProvider(ProviderCall::FetchLatest { ticker, .. }) => ticker,
        other => panic!("expected a latest-quote call, got {:?}", other),
    };
    let record = bar(1700000000, "190.1", "192.5", "189.8", "191.2", 54321000);
    let env = complete_quote(req.id, &ticker, Ok(vec![record.clone()]));
    assert_eq!(env.id, 1);
    assert_eq!(
        env.body,
        ResponseBody::BodyResult(Payload::PayQuote("AAPL".to_string(), record))
    );
}

#[test]
fn quote_takes_most_recent_row() {
    let older = bar(1, "1", "2", "0.5", "1.5", 10);
    let newer = bar(2, "1.5", "2.5", "1.0", "2.0", 20);
    let env = complete_quote(14, &"AAPL".to_string(), Ok(vec![older, newer.clone()]));
    assert_eq!(
        env.body,
        ResponseBody::BodyResult(Payload::PayQuote("AAPL".to_string(), newer))
    );
}

#[test]
fn search_scenario_preserves_provider_order() {
    let reg = Registry::new();
    let req = request(2, "search_ticker", str_params(&[("query", "Apple")]));
    assert!(matches!(
        plan_request(&reg, &req),
        DispatchStep::CallProvider(ProviderCall::SearchText { .. })
    ));
    let matches_found = vec![search_match("AAPL", "Apple"), search_match("APLE", "Apple Hospitality")];
    let env = complete_search(req.id, &"Apple".to_string(), Ok(matches_found.clone()));
    assert_eq!(env.id, 2);
    assert_eq!(env.body, ResponseBody::BodyResult(Payload::PaySearch(matches_found)));
}

#[test]
fn search_is_idempotent_for_stable_results() {
    let found = vec![search_match("AAPL", "Apple"), search_match("APLE", "Apple Hospitality")];
    let query = "Apple".to_string();
    let first = search_outcome(&query, Ok(found.clone()));
    let second = search_outcome(&query, Ok(found.clone()));
    assert_eq!(first, second);
    assert_eq!(first, HandlerOutcome::Success(Payload::PaySearch(found)));
}

#[test]
fn unresolvable_ticker_yields_error_with_reason() {
    let env = complete_quote(
        15,
        &"ZZZZ".to_string(),
        Err(ProviderError::CallFailed("no data found for this symbol".to_string())),
    );
    assert_eq!(env.id, 15);
    match env.body {
        ResponseBody::BodyError(m) => {
            assert_eq!(m, "Failed to get quote for ZZZZ: no data found for this symbol");
            assert!(m.contains("ZZZZ"));
            assert!(m.contains("no data found"));
        }
        other => panic!("expected error body, got {:?}", other),
    }
}

#[test]
fn historical_rows_preserved_in_order() {
    let rows = vec![
        bar(100, "1", "2", "0.5", "1.5", 10),
        bar(200, "1.5", "2.5", "1.0", "2.0", 20),
        bar(300, "2.0", "3.0", "1.5", "2.5", 30),
    ];
    let env = complete_historical(16, &"AAPL".to_string(), Ok(rows.clone()));
    assert_eq!(env.id, 16);
    assert_eq!(env.body, ResponseBody::BodyResult(Payload::PayHistorical(rows)));
}

#[test]
fn historical_call_failure_embeds_ticker_and_cause() {
    let outcome = historical_outcome(
        &"AAPL".to_string(),
        Err(ProviderError::CallFailed("fetching the data from yahoo! finance failed".to_string())),
    );
    assert_eq!(
        outcome,
        HandlerOutcome::Failure(
            "Failed to get quotes for AAPL: fetching the data from yahoo! finance failed"
                .to_string()
        )
    );
}

#[test]
fn connector_failure_normalized_the_same_everywhere() {
    let msg = "connection refused".to_string();
    let hist = historical_outcome(&"AAPL".to_string(), Err(ProviderError::ConnectFailed(msg.clone())));
    let quote = quote_outcome(&"AAPL".to_string(), Err(ProviderError::ConnectFailed(msg.clone())));
    let search = search_outcome(&"Apple".to_string(), Err(ProviderError::ConnectFailed(msg)));
    let expected = HandlerOutcome::Failure("Yahoo connector error: connection refused".to_string());
    assert_eq!(hist, expected);
    assert_eq!(quote, expected);
    assert_eq!(search, expected);
}

#[test]
fn search_call_failure_embeds_query_and_cause() {
    let outcome = search_outcome(
        &"Apple".to_string(),
        Err(ProviderError::CallFailed("bad gateway".to_string())),
    );
    assert_eq!(
        outcome,
        HandlerOutcome::Failure("Search failed for Apple: bad gateway".to_string())
    );
    let env = complete_search(
        17,
        &"Apple".to_string(),
        Err(ProviderError::CallFailed("bad gateway".to_string())),
    );
    assert_eq!(env.id, 17);
    match env.body {
        ResponseBody::BodyError(m) => {
            assert!(m.contains("Apple"));
            assert!(m.contains("bad gateway"));
        }
        other => panic!("expected error body, got {:?}", other),
    }
}
