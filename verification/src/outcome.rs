//! Handler outcomes and error normalization.
//!
//! Each operation's handler hands its provider call's result — rows,
//! matches, or a failure — to a decision function here, and the decision
//! function produces the one outcome owed for it: a structured success
//! payload, or a failure descriptor whose message embeds the ticker or
//! query and the provider's own words. Every provider-layer fault becomes
//! such a descriptor; none escapes as a crash or a missing reply.
use vstd::prelude::*;

verus! {

/// One historical bar: its timestamp as the provider reports it (an epoch
/// second, possibly negative for pre-epoch dates) and its prices as the
/// provider's decimal renderings, with the traded volume.
#[derive(Clone, PartialEq, Eq, Debug)]
pub struct OhlcvRecord {
    pub timestamp: i64,
    pub open: String,
    pub high: String,
    pub low: String,
    pub close: String,
    pub volume: u64,
}

/// One symbol-search match.
#[derive(Clone, PartialEq, Eq, Debug)]
pub struct SearchMatch {
    pub symbol: String,
    pub short_name: String,
    pub long_name: String,
    pub exchange: String,
    pub quote_type: String,
}

/// A structured success payload: an ordered series of bars, a single
/// quote for a ticker, or an ordered list of search matches.
#[derive(Clone, PartialEq, Eq, Debug)]
pub enum Payload {
    PayHistorical(Vec<OhlcvRecord>),
    PayQuote(String, OhlcvRecord),
    PaySearch(Vec<SearchMatch>),
}

/// What one handler invocation produced: a payload, or a failure
/// descriptor carrying a human-readable message.
#[derive(Clone, PartialEq, Eq, Debug)]
pub enum HandlerOutcome {
    Success(Payload),
    Failure(String),
}

/// A failed provider interaction: the client could not be constructed or
/// reached, or the call itself came back with an error. Either way the
/// provider's message is kept.
#[derive(Clone, PartialEq, Eq, Debug)]
pub enum ProviderError {
    ConnectFailed(String),
    CallFailed(String),
}

/// The message reported when the provider client cannot be constructed.
pub open spec fn connect_error_message(e: Seq<char>) -> Seq<char> {
    "Yahoo connector error: "@ + e
}

/// The message reported when a historical-range call fails.
pub open spec fn historical_call_error_message(ticker: Seq<char>, e: Seq<char>) -> Seq<char> {
    "Failed to get quotes for "@ + ticker + ": "@ + e
}

/// The message reported when a historical-range call succeeds with no rows.
pub open spec fn historical_no_data_message(ticker: Seq<char>) -> Seq<char> {
    "No quote data for "@ + ticker
}

/// The message reported when a latest-quote call fails.
pub open spec fn quote_call_error_message(ticker: Seq<char>, e: Seq<char>) -> Seq<char> {
    "Failed to get quote for "@ + ticker + ": "@ + e
}

/// The message reported when a latest-quote call succeeds with no rows.
pub open spec fn quote_no_data_message(ticker: Seq<char>) -> Seq<char> {
    "No quote for "@ + ticker
}

/// The message reported when a symbol-search call fails: it embeds the
/// query and the provider's message.
pub open spec fn search_call_error_message(query: Seq<char>, e: Seq<char>) -> Seq<char> {
    "Search failed for "@ + query + ": "@ + e
}

/// The failure message a historical-prices invocation reports for each
/// kind of provider error.
pub open spec fn historical_failure_message(ticker: Seq<char>, pe: ProviderError) -> Seq<char> {
    match pe {
        ProviderError::ConnectFailed(e) => connect_error_message(e@),
        ProviderError::CallFailed(e) => historical_call_error_message(ticker, e@),
    }
}

/// The failure message a latest-quote invocation reports for each kind of
/// provider error.
pub open spec fn quote_failure_message(ticker: Seq<char>, pe: ProviderError) -> Seq<char> {
    match pe {
        ProviderError::ConnectFailed(e) => connect_error_message(e@),
        ProviderError::CallFailed(e) => quote_call_error_message(ticker, e@),
    }
}

/// The failure message a symbol-search invocation reports for each kind of
/// provider error.
pub open spec fn search_failure_message(query: Seq<char>, pe: ProviderError) -> Seq<char> {
    match pe {
        ProviderError::ConnectFailed(e) => connect_error_message(e@),
        ProviderError::CallFailed(e) => search_call_error_message(query, e@),
    }
}

/// Join two pieces of text.
pub(crate) fn join2(a: &str, b: &str) -> (r: String)
    ensures
        r@ == a@ + b@,
{
    let mut m = a.to_owned();
    m.append(b);
    m
}

/// Join four pieces of text.
fn join4(a: &str, b: &str, c: &str, d: &str) -> (r: String)
    ensures
        r@ == a@ + b@ + c@ + d@,
{
    let mut m = a.to_owned();
    m.append(b);
    m.append(c);
    m.append(d);
    m
}

/// What the historical-prices handler owes for each provider result: the
/// rows verbatim when there are any, the no-data failure when the call
/// succeeded empty, and the normalized provider failure otherwise.
pub open spec fn historical_outcome_rel(
    ticker: Seq<char>,
    result: Result<Vec<OhlcvRecord>, ProviderError>,
    outcome: HandlerOutcome,
) -> bool {
    match result {
        Err(pe) => outcome matches HandlerOutcome::Failure(m) && m@ == historical_failure_message(
            ticker,
            pe,
        ),
        Ok(rows) => if rows@.len() == 0 {
            outcome matches HandlerOutcome::Failure(m) && m@ == historical_no_data_message(ticker)
        } else {
            outcome == HandlerOutcome::Success(Payload::PayHistorical(rows))
        },
    }
}

/// Decide the outcome of a historical-prices invocation from its provider
/// result. A success with rows keeps them in provider order; a success
/// with none is reported as a failure naming the ticker.
pub fn historical_outcome(ticker: &String, result: Result<Vec<OhlcvRecord>, ProviderError>) -> (r:
    HandlerOutcome)
    ensures
        historical_outcome_rel(ticker@, result, r),
{
    match result {
        Err(pe) => match pe {
            ProviderError::ConnectFailed(e) => HandlerOutcome::Failure(
                join2("Yahoo connector error: ", e.as_str()),
            ),
            ProviderError::CallFailed(e) => HandlerOutcome::Failure(
                join4("Failed to get quotes for ", ticker.as_str(), ": ", e.as_str()),
            ),
        },
        Ok(rows) => if rows.len() == 0 {
            HandlerOutcome::Failure(join2("No quote data for ", ticker.as_str()))
        } else {
            HandlerOutcome::Success(Payload::PayHistorical(rows))
        },
    }
}

/// What the latest-quote handler owes for each provider result: the last
/// row as the quote when there is one, the no-data failure when the call
/// succeeded empty, and the normalized provider failure otherwise.
pub open spec fn quote_outcome_rel(
    ticker: Seq<char>,
    result: Result<Vec<OhlcvRecord>, ProviderError>,
    outcome: HandlerOutcome,
) -> bool {
    match result {
        Err(pe) => outcome matches HandlerOutcome::Failure(m) && m@ == quote_failure_message(
            ticker,
            pe,
        ),
        Ok(rows) => if rows@.len() == 0 {
            outcome matches HandlerOutcome::Failure(m) && m@ == quote_no_data_message(ticker)
        } else {
            outcome matches HandlerOutcome::Success(p) && p matches Payload::PayQuote(t, rec)
                && t@ == ticker && rec == rows@.last()
        },
    }
}

/// Decide the outcome of a latest-quote invocation from its provider
/// result: the most recent of the returned rows, carrying the ticker.
pub fn quote_outcome(ticker: &String, result: Result<Vec<OhlcvRecord>, ProviderError>) -> (r:
    HandlerOutcome)
    ensures
        quote_outcome_rel(ticker@, result, r),
{
    match result {
        Err(pe) => match pe {
            ProviderError::ConnectFailed(e) => HandlerOutcome::Failure(
                join2("Yahoo connector error: ", e.as_str()),
            ),
            ProviderError::CallFailed(e) => HandlerOutcome::Failure(
                join4("Failed to get quote for ", ticker.as_str(), ": ", e.as_str()),
            ),
        },
        Ok(mut rows) => match rows.pop() {
            Some(rec) => HandlerOutcome::Success(Payload::PayQuote(ticker.clone(), rec)),
            None => HandlerOutcome::Failure(join2("No quote for ", ticker.as_str())),
        },
    }
}

/// What the symbol-search handler owes for each provider result: the
/// matches verbatim — an empty match list is a legitimate search outcome,
/// not a failure — and the normalized provider failure otherwise.
pub open spec fn search_outcome_rel(
    query: Seq<char>,
    result: Result<Vec<SearchMatch>, ProviderError>,
    outcome: HandlerOutcome,
) -> bool {
    match result {
        Err(pe) => outcome matches HandlerOutcome::Failure(m) && m@ == search_failure_message(
            query,
            pe,
        ),
        Ok(found) => outcome == HandlerOutcome::Success(Payload::PaySearch(found)),
    }
}

/// Decide the outcome of a symbol-search invocation from its provider
/// result, keeping the matches in provider order. A failed call is
/// reported with the query and the provider's message.
pub fn search_outcome(query: &String, result: Result<Vec<SearchMatch>, ProviderError>) -> (r:
    HandlerOutcome)
    ensures
        search_outcome_rel(query@, result, r),
{
    match result {
        Err(pe) => match pe {
            ProviderError::ConnectFailed(e) => HandlerOutcome::Failure(
                join2("Yahoo connector error: ", e.as_str()),
            ),
            ProviderError::CallFailed(e) => HandlerOutcome::Failure(
                join4("Search failed for ", query.as_str(), ": ", e.as_str()),
            ),
        },
        Ok(found) => HandlerOutcome::Success(Payload::PaySearch(found)),
    }
}

/// A provider call that succeeds with zero rows yields a failure, never an
/// empty success: this holds of the historical and the latest-quote
/// decisions alike.
pub proof fn lemma_empty_rows_fail(
    ticker: Seq<char>,
    rows: Vec<OhlcvRecord>,
    hist: HandlerOutcome,
    quote: HandlerOutcome,
)
    requires
        rows@.len() == 0,
        historical_outcome_rel(ticker, Ok(rows), hist),
        quote_outcome_rel(ticker, Ok(rows), quote),
    ensures
        hist is Failure,
        quote is Failure,
{
}

/// A search that succeeds with zero matches yields a success carrying an
/// empty list, never a failure.
pub proof fn lemma_empty_search_succeeds(
    query: Seq<char>,
    found: Vec<SearchMatch>,
    outcome: HandlerOutcome,
)
    requires
        found@.len() == 0,
        search_outcome_rel(query, Ok(found), outcome),
    ensures
        outcome matches HandlerOutcome::Success(p) && p matches Payload::PaySearch(v) && v@.len()
            == 0,
{
}

/// Idempotence of search: two decisions over the same successful provider
/// result are structurally identical, matches and order included.
pub proof fn lemma_search_idempotent(
    query: Seq<char>,
    result: Result<Vec<SearchMatch>, ProviderError>,
    first: HandlerOutcome,
    second: HandlerOutcome,
)
    requires
        result is Ok,
        search_outcome_rel(query, result, first),
        search_outcome_rel(query, result, second),
    ensures
        first == second,
{
}

} // verus!
