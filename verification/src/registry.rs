//! The operation registry: the three operations the adapter serves, each
//! with its name, parameter schema, handler kind and description.
//!
//! The registry is built once, before any request is served, and is never
//! mutated afterward; dispatch and introspection only read it.
use crate::params::FieldSpec;
use vstd::prelude::*;

verus! {

/// Which handler an operation is bound to.
#[derive(Clone, Copy, PartialEq, Eq, Structural)]
pub enum OpKind {
    KindHistorical,
    KindQuote,
    KindSearch,
}

/// One registered operation.
pub struct RegEntry {
    pub name: String,
    pub kind: OpKind,
    pub schema: Vec<FieldSpec>,
    pub description: String,
}

/// The operation registry.
pub struct Registry {
    pub entries: Vec<RegEntry>,
}

/// A schema field that a request must supply.
pub open spec fn is_required_field(f: FieldSpec, name: Seq<char>) -> bool {
    f.name@ == name && f.required
}

/// A schema field filled with `default` when a request leaves it out.
pub open spec fn is_optional_field(f: FieldSpec, name: Seq<char>, default: Seq<char>) -> bool {
    f.name@ == name && !f.required && f.default_value@ == default
}

/// The historical-prices operation: a required ticker, and period and
/// interval defaulting to one month and one day.
pub open spec fn is_historical_entry(e: RegEntry) -> bool {
    &&& e.name@ == "get_historical_stock_prices"@
    &&& e.kind is KindHistorical
    &&& e.schema@.len() == 3
    &&& is_required_field(e.schema@[0], "ticker"@)
    &&& is_optional_field(e.schema@[1], "period"@, "1mo"@)
    &&& is_optional_field(e.schema@[2], "interval"@, "1d"@)
    &&& e.description@ == "Get historical OHLCV data for a stock. Returns Date, Open, High, Low, Close, Volume."@
}

/// The latest-quote operation: a required ticker only.
pub open spec fn is_quote_entry(e: RegEntry) -> bool {
    &&& e.name@ == "get_stock_quote"@
    &&& e.kind is KindQuote
    &&& e.schema@.len() == 1
    &&& is_required_field(e.schema@[0], "ticker"@)
    &&& e.description@ == "Get latest quote for a ticker (open, high, low, close, volume)."@
}

/// The symbol-search operation: a required free-text query only.
pub open spec fn is_search_entry(e: RegEntry) -> bool {
    &&& e.name@ == "search_ticker"@
    &&& e.kind is KindSearch
    &&& e.schema@.len() == 1
    &&& is_required_field(e.schema@[0], "query"@)
    &&& e.description@ == "Search for ticker symbols by company name or keyword."@
}

/// The registry this adapter serves: exactly the three operations.
pub open spec fn is_standard_registry(r: Registry) -> bool {
    &&& r.entries@.len() == 3
    &&& is_historical_entry(r.entries@[0])
    &&& is_quote_entry(r.entries@[1])
    &&& is_search_entry(r.entries@[2])
}

/// The first registered operation named `name`, if any.
pub open spec fn spec_lookup(entries: Seq<RegEntry>, name: Seq<char>) -> Option<RegEntry>
    decreases entries.len(),
{
    if entries.len() == 0 {
        None
    } else if entries[0].name@ == name {
        Some(entries[0])
    } else {
        spec_lookup(entries.drop_first(), name)
    }
}

fn required_field(name: &str) -> (r: FieldSpec)
    ensures
        is_required_field(r, name@),
{
    FieldSpec { name: name.to_owned(), required: true, default_value: String::new() }
}

fn optional_field(name: &str, default: &str) -> (r: FieldSpec)
    ensures
        is_optional_field(r, name@, default@),
{
    FieldSpec { name: name.to_owned(), required: false, default_value: default.to_owned() }
}

impl Registry {
    /// Build the registry of the three operations. Populated exactly once,
    /// at startup, before the dispatch loop accepts any request.
    pub fn new() -> (r: Registry)
        ensures
            is_standard_registry(r),
    {
        let mut hist_schema: Vec<FieldSpec> = Vec::new();
        hist_schema.push(required_field("ticker"));
        hist_schema.push(optional_field("period", "1mo"));
        hist_schema.push(optional_field("interval", "1d"));
        let hist = RegEntry {
            name: "get_historical_stock_prices".to_owned(),
            kind: OpKind::KindHistorical,
            schema: hist_schema,
            description:
                "Get historical OHLCV data for a stock. Returns Date, Open, High, Low, Close, Volume.".to_owned(),
        };
        let mut quote_schema: Vec<FieldSpec> = Vec::new();
        quote_schema.push(required_field("ticker"));
        let quote = RegEntry {
            name: "get_stock_quote".to_owned(),
            kind: OpKind::KindQuote,
            schema: quote_schema,
            description: "Get latest quote for a ticker (open, high, low, close, volume).".to_owned(),
        };
        let mut search_schema: Vec<FieldSpec> = Vec::new();
        search_schema.push(required_field("query"));
        let search = RegEntry {
            name: "search_ticker".to_owned(),
            kind: OpKind::KindSearch,
            schema: search_schema,
            description: "Search for ticker symbols by company name or keyword.".to_owned(),
        };
        let mut entries: Vec<RegEntry> = Vec::new();
        entries.push(hist);
        entries.push(quote);
        entries.push(search);
        Registry { entries }
    }

    /// The first registered operation named `name`, if any.
    pub fn lookup<'a>(&'a self, name: &String) -> (r: Option<&'a RegEntry>)
        ensures
            match r {
                Some(e) => spec_lookup(self.entries@, name@) == Some(*e),
                None => spec_lookup(self.entries@, name@) is None,
            },
    {
        let n = self.entries.len();
        proof {
            assert(self.entries@.skip(0) =~= self.entries@);
        }
        let mut i: usize = 0;
        while i < n
            invariant
                n == self.entries@.len(),
                i <= n,
                spec_lookup(self.entries@, name@) == spec_lookup(
                    self.entries@.skip(i as int),
                    name@,
                ),
            decreases n - i,
        {
            proof {
                assert(self.entries@.skip(i as int)[0] == self.entries@[i as int]);
            }
            if self.entries[i].name == *name {
                return Some(&self.entries[i]);
            }
            proof {
                assert(self.entries@.skip(i as int).drop_first() =~= self.entries@.skip(
                    i as int + 1,
                ));
            }
            i += 1;
        }
        proof {
            assert(self.entries@.skip(n as int) =~= Seq::<RegEntry>::empty());
        }
        None
    }

    /// The registered operations, for introspection: each entry's name,
    /// schema and description, in registration order.
    pub fn list<'a>(&'a self) -> (r: &'a Vec<RegEntry>)
        ensures
            r == &self.entries,
    {
        &self.entries
    }
}

/// A successful lookup returns one of the registered entries.
pub proof fn lemma_lookup_is_entry(entries: Seq<RegEntry>, name: Seq<char>, e: RegEntry)
    requires
        spec_lookup(entries, name) == Some(e),
    ensures
        exists|i: int| 0 <= i < entries.len() && entries[i] == e,
    decreases entries.len(),
{
    if entries.len() == 0 {
    } else if entries[0].name@ == name {
        assert(entries[0] == e);
    } else {
        lemma_lookup_is_entry(entries.drop_first(), name, e);
        let i = choose|i: int| 0 <= i < entries.drop_first().len() && entries.drop_first()[i] == e;
        assert(entries[i + 1] == e);
    }
}

/// No two operations of the standard registry share a name.
pub proof fn lemma_standard_registry_names_unique(r: Registry)
    requires
        is_standard_registry(r),
    ensures
        forall|i: int, j: int|
            0 <= i < j < r.entries@.len() ==> r.entries@[i].name@ != r.entries@[j].name@,
{
    reveal_strlit("get_historical_stock_prices");
    reveal_strlit("get_stock_quote");
    reveal_strlit("search_ticker");
    assert(r.entries@[0].name@.len() == 27);
    assert(r.entries@[1].name@.len() == 15);
    assert(r.entries@[2].name@.len() == 13);
}

/// The process identity exposed by introspection.
pub struct ServerInfo {
    pub name: String,
    pub version: String,
    pub description: String,
    pub instructions: String,
}

/// The fixed identity of this adapter: name, version, and an instructions
/// string naming the three operations.
pub fn server_info() -> (r: ServerInfo)
    ensures
        r.name@ == "yfinance_rmcp"@,
        r.version@ == "0.1.0"@,
        r.description@
            == "Yahoo Finance data collector. Tools: get_historical_stock_prices, get_stock_quote, search_ticker."@,
        r.instructions@ == r.description@,
        r.instructions@.len() > 0,
{
    let text =
        "Yahoo Finance data collector. Tools: get_historical_stock_prices, get_stock_quote, search_ticker.";
    proof {
        reveal_strlit(
            "Yahoo Finance data collector. Tools: get_historical_stock_prices, get_stock_quote, search_ticker.",
        );
    }
    ServerInfo {
        name: "yfinance_rmcp".to_owned(),
        version: "0.1.0".to_owned(),
        description: text.to_owned(),
        instructions: text.to_owned(),
    }
}

} // verus!
