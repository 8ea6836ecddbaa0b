//! Dispatch planning: from an inbound request to the one response owed.
//!
//! One dispatch cycle runs per request: the operation is looked up in the
//! registry, the parameters are validated against its schema, and either a
//! response is owed at once (unknown operation, invalid parameters) or a
//! single provider call is owed, whose result completes the cycle through
//! the decision functions. Either way exactly one response envelope comes
//! out, and it carries the request's own correlation id.
use crate::outcome::HandlerOutcome;
use crate::outcome::OhlcvRecord;
use crate::outcome::Payload;
use crate::outcome::ProviderError;
use crate::outcome::SearchMatch;
use crate::outcome::historical_failure_message;
use crate::outcome::historical_no_data_message;
use crate::outcome::historical_outcome;
use crate::outcome::join2;
use crate::outcome::quote_failure_message;
use crate::outcome::quote_no_data_message;
use crate::outcome::quote_outcome;
use crate::outcome::search_failure_message;
use crate::outcome::search_outcome;
use crate::params::ParamValue;
use crate::params::RawParams;
use crate::params::ValidationIssue;
use crate::params::lookup_field;
use crate::params::spec_validate;
use crate::params::spec_validate_prefix;
use crate::params::lemma_validate_prefix_len;
use crate::params::validate;
use crate::registry::OpKind;
use crate::registry::Registry;
use crate::registry::is_standard_registry;
use crate::registry::spec_lookup;
use vstd::prelude::*;

verus! {

/// One inbound request: its correlation id, the operation it names, and
/// its untyped parameter bag.
#[derive(Clone, PartialEq, Eq, Debug)]
pub struct RawRequest {
    pub id: u64,
    pub method: String,
    pub params: RawParams,
}

/// A response body: a structured success payload, or an error message.
#[derive(Clone, PartialEq, Eq, Debug)]
pub enum ResponseBody {
    BodyResult(Payload),
    BodyError(String),
}

/// The one response owed for a request: its correlation id and its body.
#[derive(Clone, PartialEq, Eq, Debug)]
pub struct ResponseEnvelope {
    pub id: u64,
    pub body: ResponseBody,
}

/// The single provider call a validated request asks for, with the exact
/// arguments to hand the provider.
#[derive(Clone, PartialEq, Eq, Debug)]
pub enum ProviderCall {
    FetchRange { ticker: String, interval: String, period: String },
    FetchLatest { ticker: String, interval: String },
    SearchText { query: String },
}

/// What planning a request decides: respond at once, or make one provider
/// call and complete the cycle with its result.
#[derive(Clone, PartialEq, Eq, Debug)]
pub enum DispatchStep {
    Respond(ResponseEnvelope),
    CallProvider(ProviderCall),
}

/// The message reported for a request naming no registered operation.
pub open spec fn unknown_operation_message(method: Seq<char>) -> Seq<char> {
    "Unknown operation: "@ + method
}

/// The message reported for each parameter-validation issue.
pub open spec fn validation_issue_message(issue: ValidationIssue) -> Seq<char> {
    match issue {
        ValidationIssue::IssueMissing(f) => "Missing required parameter: "@ + f,
        ValidationIssue::IssueWrongType(f) => "Invalid type for parameter: "@ + f,
    }
}

/// The provider call owed for an operation of `kind` with the given typed
/// parameters: the historical range call takes ticker, period and interval
/// verbatim; the latest-quote call takes the ticker and fixes the daily
/// interval; the search call takes the query.
pub open spec fn call_matches(
    kind: OpKind,
    typed: Seq<(Seq<char>, Seq<char>)>,
    c: ProviderCall,
) -> bool {
    match kind {
        OpKind::KindHistorical => c matches ProviderCall::FetchRange {
            ticker,
            interval,
            period,
        } && typed.len() == 3 && ticker@ == typed[0].1 && period@ == typed[1].1 && interval@
            == typed[2].1,
        OpKind::KindQuote => c matches ProviderCall::FetchLatest { ticker, interval } && typed.len()
            == 1 && ticker@ == typed[0].1 && interval@ == "1d"@,
        OpKind::KindSearch => c matches ProviderCall::SearchText { query } && typed.len() == 1
            && query@ == typed[0].1,
    }
}

/// What planning owes for a request: the unknown-operation error when the
/// registry holds no such name; the validation error when the schema
/// rejects the bag; otherwise the one provider call for the operation's
/// kind. Every immediate response carries the request's id.
pub open spec fn plan_rel(reg: Registry, req: RawRequest, step: DispatchStep) -> bool {
    match spec_lookup(reg.entries@, req.method@) {
        None => step matches DispatchStep::Respond(env) && env.id == req.id && (
        env.body matches ResponseBody::BodyError(m) && m@ == unknown_operation_message(
            req.method@,
        )),
        Some(entry) => match spec_validate(entry.schema@, req.params.fields@) {
            Err(issue) => step matches DispatchStep::Respond(env) && env.id == req.id && (
            env.body matches ResponseBody::BodyError(m) && m@ == validation_issue_message(issue)),
            Ok(typed) => step matches DispatchStep::CallProvider(c) && call_matches(
                entry.kind,
                typed,
                c,
            ),
        },
    }
}

/// Plan the dispatch of one request against the standard registry.
pub fn plan_request(reg: &Registry, req: &RawRequest) -> (r: DispatchStep)
    requires
        is_standard_registry(*reg),
    ensures
        plan_rel(*reg, *req, r),
{
    match reg.lookup(&req.method) {
        None => DispatchStep::Respond(
            ResponseEnvelope {
                id: req.id,
                body: ResponseBody::BodyError(join2("Unknown operation: ", req.method.as_str())),
            },
        ),
        Some(entry) => {
            match validate(&entry.schema, &req.params) {
                Err(e) => {
                    let msg = match e {
                        crate::params::ValidationError::MissingField(f) => join2(
                            "Missing required parameter: ",
                            f.as_str(),
                        ),
                        crate::params::ValidationError::WrongType(f) => join2(
                            "Invalid type for parameter: ",
                            f.as_str(),
                        ),
                    };
                    DispatchStep::Respond(
                        ResponseEnvelope { id: req.id, body: ResponseBody::BodyError(msg) },
                    )
                },
                Ok(mut typed) => {
                    proof {
                        crate::registry::lemma_lookup_is_entry(
                            reg.entries@,
                            req.method@,
                            *entry,
                        );
                        lemma_validate_prefix_len(
                            entry.schema@,
                            entry.schema@.len() as int,
                            req.params.fields@,
                        );
                    }
                    match entry.kind {
                        OpKind::KindHistorical => {
                            let interval = typed.pop().unwrap().1;
                            let period = typed.pop().unwrap().1;
                            let ticker = typed.pop().unwrap().1;
                            DispatchStep::CallProvider(
                                ProviderCall::FetchRange { ticker, interval, period },
                            )
                        },
                        OpKind::KindQuote => {
                            let ticker = typed.pop().unwrap().1;
                            DispatchStep::CallProvider(
                                ProviderCall::FetchLatest { ticker, interval: "1d".to_owned() },
                            )
                        },
                        OpKind::KindSearch => {
                            let query = typed.pop().unwrap().1;
                            DispatchStep::CallProvider(ProviderCall::SearchText { query })
                        },
                    }
                },
            }
        },
    }
}

/// Wrap a handler outcome in the envelope owed for request `id`: a success
/// payload becomes the result body, a failure message the error body.
pub fn envelope_of(id: u64, outcome: HandlerOutcome) -> (r: ResponseEnvelope)
    ensures
        r.id == id,
        outcome matches HandlerOutcome::Success(p) ==> r.body == ResponseBody::BodyResult(p),
        outcome matches HandlerOutcome::Failure(m) ==> r.body == ResponseBody::BodyError(m),
{
    match outcome {
        HandlerOutcome::Success(p) => ResponseEnvelope { id, body: ResponseBody::BodyResult(p) },
        HandlerOutcome::Failure(m) => ResponseEnvelope { id, body: ResponseBody::BodyError(m) },
    }
}

/// The body owed for a historical-range result.
pub open spec fn historical_response_rel(
    ticker: Seq<char>,
    result: Result<Vec<OhlcvRecord>, ProviderError>,
    body: ResponseBody,
) -> bool {
    match result {
        Err(pe) => body matches ResponseBody::BodyError(m) && m@ == historical_failure_message(
            ticker,
            pe,
        ),
        Ok(rows) => if rows@.len() == 0 {
            body matches ResponseBody::BodyError(m) && m@ == historical_no_data_message(ticker)
        } else {
            body == ResponseBody::BodyResult(Payload::PayHistorical(rows))
        },
    }
}

/// Complete a historical-prices cycle: the envelope owed for request `id`
/// once the provider's range call has returned.
pub fn complete_historical(
    id: u64,
    ticker: &String,
    result: Result<Vec<OhlcvRecord>, ProviderError>,
) -> (r: ResponseEnvelope)
    ensures
        r.id == id,
        historical_response_rel(ticker@, result, r.body),
{
    envelope_of(id, historical_outcome(ticker, result))
}

/// The body owed for a latest-quote result.
pub open spec fn quote_response_rel(
    ticker: Seq<char>,
    result: Result<Vec<OhlcvRecord>, ProviderError>,
    body: ResponseBody,
) -> bool {
    match result {
        Err(pe) => body matches ResponseBody::BodyError(m) && m@ == quote_failure_message(
            ticker,
            pe,
        ),
        Ok(rows) => if rows@.len() == 0 {
            body matches ResponseBody::BodyError(m) && m@ == quote_no_data_message(ticker)
        } else {
            body matches ResponseBody::BodyResult(p) && p matches Payload::PayQuote(t, rec) && t@
                == ticker && rec == rows@.last()
        },
    }
}

/// Complete a latest-quote cycle: the envelope owed for request `id` once
/// the provider's latest-quote call has returned.
pub fn complete_quote(
    id: u64,
    ticker: &String,
    result: Result<Vec<OhlcvRecord>, ProviderError>,
) -> (r: ResponseEnvelope)
    ensures
        r.id == id,
        quote_response_rel(ticker@, result, r.body),
{
    envelope_of(id, quote_outcome(ticker, result))
}

/// The body owed for a symbol-search result: a failed call is reported
/// with the query and the provider's message.
pub open spec fn search_response_rel(
    query: Seq<char>,
    result: Result<Vec<SearchMatch>, ProviderError>,
    body: ResponseBody,
) -> bool {
    match result {
        Err(pe) => body matches ResponseBody::BodyError(m) && m@ == search_failure_message(
            query,
            pe,
        ),
        Ok(found) => body == ResponseBody::BodyResult(Payload::PaySearch(found)),
    }
}

/// Complete a symbol-search cycle: the envelope owed for request `id` once
/// the provider's search call has returned.
pub fn complete_search(
    id: u64,
    query: &String,
    result: Result<Vec<SearchMatch>, ProviderError>,
) -> (r: ResponseEnvelope)
    ensures
        r.id == id,
        search_response_rel(query@, result, r.body),
{
    envelope_of(id, search_outcome(query, result))
}

/// Exactly one response is owed per request, and it is correlated: a
/// planned immediate response carries the request's id, and every
/// completion of a planned provider call carries the id it was handed —
/// the dispatch loop hands it the request's.
pub proof fn lemma_response_correlated(reg: Registry, req: RawRequest, step: DispatchStep)
    requires
        plan_rel(reg, req, step),
    ensures
        step matches DispatchStep::Respond(env) ==> env.id == req.id,
{
}

/// A historical-price request that names a ticker and leaves period and
/// interval out is planned with the declared defaults: the provider range
/// call it asks for uses the one-month period and the one-day interval,
/// and passes the ticker through verbatim.
pub proof fn lemma_historical_defaults(
    reg: Registry,
    req: RawRequest,
    v: ParamValue,
    step: DispatchStep,
)
    requires
        is_standard_registry(reg),
        req.method@ == "get_historical_stock_prices"@,
        lookup_field(req.params.fields@, "ticker"@) == Some(v),
        v.is_string(),
        lookup_field(req.params.fields@, "period"@) is None,
        lookup_field(req.params.fields@, "interval"@) is None,
        plan_rel(reg, req, step),
    ensures
        step matches DispatchStep::CallProvider(c) && (c matches ProviderCall::FetchRange {
            ticker,
            interval,
            period,
        } && ticker@ == v.string_view() && period@ == "1mo"@ && interval@ == "1d"@),
{
    reveal_with_fuel(spec_validate_prefix, 4);
    let e0 = reg.entries@[0];
    assert(spec_lookup(reg.entries@, req.method@) == Some(e0));
    let bag = req.params.fields@;
    assert(spec_validate_prefix(e0.schema@, 1, bag) == Ok::<_, ValidationIssue>(
        Seq::<(Seq<char>, Seq<char>)>::empty().push(("ticker"@, v.string_view())),
    ));
    assert(spec_validate(e0.schema@, bag) matches Ok(typed) && typed.len() == 3 && typed[0].1
        == v.string_view() && typed[1].1 == "1mo"@ && typed[2].1 == "1d"@);
}

/// A request naming no registered operation is answered — with an error
/// body naming the unknown operation — rather than dropped or fatal: the
/// planned step is an immediate, correlated error response, and planning
/// itself never fails, so the session serves the next request.
pub proof fn lemma_unknown_operation_answered(reg: Registry, req: RawRequest, step: DispatchStep)
    requires
        plan_rel(reg, req, step),
        spec_lookup(reg.entries@, req.method@) is None,
    ensures
        step matches DispatchStep::Respond(env) && env.id == req.id && (
        env.body matches ResponseBody::BodyError(m) && m@ == unknown_operation_message(
            req.method@,
        )),
{
}

} // verus!
