//! Rendering of success payloads as JSON text.
//!
//! The wire format of each payload is defined here as a function of the
//! payload's fields: an array of bar objects for a historical series, one
//! object for a quote, an array of match objects for a search. String
//! fields are escaped; prices, kept as the provider's decimal renderings,
//! are inserted verbatim as JSON numbers; counts and timestamps are
//! rendered in decimal.
use crate::outcome::OhlcvRecord;
use crate::outcome::Payload;
use crate::outcome::SearchMatch;
use vstd::prelude::*;

verus! {

/// Relies on String::push: it appends exactly the given character.
#[verifier::external_body]
fn push_char(s: &mut String, c: char)
    ensures
        final (s)@ == old(s)@.push(c),
{
    s.push(c);
}

/// The lower-case hexadecimal digit character for a value below sixteen.
pub open spec fn hex_digit(d: nat) -> char {
    if d < 10 {
        dec_digit(d)
    } else if d == 10 {
        'a'
    } else if d == 11 {
        'b'
    } else if d == 12 {
        'c'
    } else if d == 13 {
        'd'
    } else if d == 14 {
        'e'
    } else {
        'f'
    }
}

/// How one character appears inside a JSON string literal: quotes and
/// backslashes are escaped, the common control characters take their short
/// escapes, every other control character its `\u00..` escape, and every
/// remaining character stands for itself.
pub open spec fn json_escaped_char(c: char) -> Seq<char> {
    if c == '"' {
        seq!['\\', '"']
    } else if c == '\\' {
        seq!['\\', '\\']
    } else if c == '\n' {
        seq!['\\', 'n']
    } else if c == '\r' {
        seq!['\\', 'r']
    } else if c == '\t' {
        seq!['\\', 't']
    } else if (c as u32) < 32 {
        seq![
            '\\',
            'u',
            '0',
            '0',
            hex_digit(((c as u32) / 16) as nat),
            hex_digit(((c as u32) % 16) as nat),
        ]
    } else {
        seq![c]
    }
}

/// The text of a JSON string literal's body: each character escaped.
pub open spec fn json_escaped(s: Seq<char>) -> Seq<char>
    decreases s.len(),
{
    if s.len() == 0 {
        Seq::empty()
    } else {
        json_escaped(s.drop_last()) + json_escaped_char(s.last())
    }
}

/// Escape text for use inside a JSON string literal.
pub fn escape_json(s: &str) -> (r: String)
    ensures
        r@ == json_escaped(s@),
{
    let n = s.unicode_len();
    let mut out = String::new();
    let mut i: usize = 0;
    while i < n
        invariant
            n == s@.len(),
            i <= n,
            out@ == json_escaped(s@.take(i as int)),
        decreases n - i,
    {
        let c = s.get_char(i);
        if c == '"' {
            out.append("\\\"");
            proof {
                assert("\\\""@ =~= seq!['\\', '"']) by {
                    reveal_strlit("\\\"");
                }
            }
        } else if c == '\\' {
            out.append("\\\\");
            proof {
                assert("\\\\"@ =~= seq!['\\', '\\']) by {
                    reveal_strlit("\\\\");
                }
            }
        } else if c == '\n' {
            out.append("\\n");
            proof {
                assert("\\n"@ =~= seq!['\\', 'n']) by {
                    reveal_strlit("\\n");
                }
            }
        } else if c == '\r' {
            out.append("\\r");
            proof {
                assert("\\r"@ =~= seq!['\\', 'r']) by {
                    reveal_strlit("\\r");
                }
            }
        } else if c == '\t' {
            out.append("\\t");
            proof {
                assert("\\t"@ =~= seq!['\\', 't']) by {
                    reveal_strlit("\\t");
                }
            }
        } else {
            let code = c as u32;
            if code < 32 {
                out.append("\\u00");
                push_char(&mut out, hex_char(code / 16));
                push_char(&mut out, hex_char(code % 16));
                proof {
                    assert("\\u00"@ =~= seq!['\\', 'u', '0', '0']) by {
                        reveal_strlit("\\u00");
                    }
                }
            } else {
                push_char(&mut out, c);
            }
        }
        proof {
            assert(s@.take(i as int + 1).drop_last() =~= s@.take(i as int));
            assert(out@ =~= json_escaped(s@.take(i as int + 1)));
        }
        i += 1;
    }
    proof {
        assert(s@.take(n as int) =~= s@);
    }
    out
}

/// The decimal digit character for a value below ten.
pub open spec fn dec_digit(d: nat) -> char {
    if d == 0 {
        '0'
    } else if d == 1 {
        '1'
    } else if d == 2 {
        '2'
    } else if d == 3 {
        '3'
    } else if d == 4 {
        '4'
    } else if d == 5 {
        '5'
    } else if d == 6 {
        '6'
    } else if d == 7 {
        '7'
    } else if d == 8 {
        '8'
    } else {
        '9'
    }
}

/// The decimal rendering of a number: most significant digit first, no
/// leading zeros except for zero itself.
pub open spec fn dec_digits(n: nat) -> Seq<char>
    decreases n,
{
    if n < 10 {
        seq![dec_digit(n)]
    } else {
        dec_digits(n / 10).push(dec_digit(n % 10))
    }
}

fn digit_char(d: u64) -> (c: char)
    requires
        d < 10,
    ensures
        c == dec_digit(d as nat),
{
    if d == 0 {
        '0'
    } else if d == 1 {
        '1'
    } else if d == 2 {
        '2'
    } else if d == 3 {
        '3'
    } else if d == 4 {
        '4'
    } else if d == 5 {
        '5'
    } else if d == 6 {
        '6'
    } else if d == 7 {
        '7'
    } else if d == 8 {
        '8'
    } else {
        '9'
    }
}

fn hex_char(d: u32) -> (c: char)
    requires
        d < 16,
    ensures
        c == hex_digit(d as nat),
{
    if d < 10 {
        digit_char(d as u64)
    } else if d == 10 {
        'a'
    } else if d == 11 {
        'b'
    } else if d == 12 {
        'c'
    } else if d == 13 {
        'd'
    } else if d == 14 {
        'e'
    } else {
        'f'
    }
}

/// Render a number in decimal.
pub fn u64_to_dec(n: u64) -> (r: String)
    ensures
        r@ == dec_digits(n as nat),
    decreases n,
{
    let d = digit_char(n % 10);
    if n < 10 {
        let mut s = String::new();
        push_char(&mut s, d);
        proof {
            assert(s@ =~= dec_digits(n as nat));
        }
        s
    } else {
        let mut s = u64_to_dec(n / 10);
        push_char(&mut s, d);
        s
    }
}

/// The decimal rendering of a possibly negative number: a minus sign
/// before the magnitude's digits.
pub open spec fn int_digits(n: int) -> Seq<char> {
    if n < 0 {
        seq!['-'] + dec_digits((-n) as nat)
    } else {
        dec_digits(n as nat)
    }
}

/// Render a signed number in decimal.
pub fn i64_to_dec(n: i64) -> (r: String)
    ensures
        r@ == int_digits(n as int),
{
    if n >= 0 {
        u64_to_dec(n as u64)
    } else {
        let magnitude: u64 = if n == i64::MIN {
            9223372036854775808u64
        } else {
            (-n) as u64
        };
        let mut s = "-".to_owned();
        let digits = u64_to_dec(magnitude);
        s.append(digits.as_str());
        proof {
            assert("-"@ =~= seq!['-']) by {
                reveal_strlit("-");
            }
        }
        s
    }
}

/// The JSON object for one historical bar.
pub open spec fn json_of_record(r: OhlcvRecord) -> Seq<char> {
    "{\"date\":"@ + int_digits(r.timestamp as int) + ",\"open\":"@ + r.open@ + ",\"high\":"@
        + r.high@ + ",\"low\":"@ + r.low@ + ",\"close\":"@ + r.close@ + ",\"volume\":"@
        + dec_digits(r.volume as nat) + "}"@
}

fn render_record(r: &OhlcvRecord) -> (out: String)
    ensures
        out@ == json_of_record(*r),
{
    let mut s = "{\"date\":".to_owned();
    let ts = i64_to_dec(r.timestamp);
    s.append(ts.as_str());
    s.append(",\"open\":");
    s.append(r.open.as_str());
    s.append(",\"high\":");
    s.append(r.high.as_str());
    s.append(",\"low\":");
    s.append(r.low.as_str());
    s.append(",\"close\":");
    s.append(r.close.as_str());
    s.append(",\"volume\":");
    let vol = u64_to_dec(r.volume);
    s.append(vol.as_str());
    s.append("}");
    s
}

/// The JSON object for the latest quote of a ticker.
pub open spec fn json_of_quote(ticker: Seq<char>, r: OhlcvRecord) -> Seq<char> {
    "{\"ticker\":\""@ + json_escaped(ticker) + "\",\"timestamp\":"@ + int_digits(
        r.timestamp as int,
    ) + ",\"open\":"@ + r.open@ + ",\"high\":"@ + r.high@ + ",\"low\":"@ + r.low@ + ",\"close\":"@
        + r.close@ + ",\"volume\":"@ + dec_digits(r.volume as nat) + "}"@
}

fn render_quote(ticker: &String, r: &OhlcvRecord) -> (out: String)
    ensures
        out@ == json_of_quote(ticker@, *r),
{
    let mut s = "{\"ticker\":\"".to_owned();
    let t = escape_json(ticker.as_str());
    s.append(t.as_str());
    s.append("\",\"timestamp\":");
    let ts = i64_to_dec(r.timestamp);
    s.append(ts.as_str());
    s.append(",\"open\":");
    s.append(r.open.as_str());
    s.append(",\"high\":");
    s.append(r.high.as_str());
    s.append(",\"low\":");
    s.append(r.low.as_str());
    s.append(",\"close\":");
    s.append(r.close.as_str());
    s.append(",\"volume\":");
    let vol = u64_to_dec(r.volume);
    s.append(vol.as_str());
    s.append("}");
    s
}

/// The JSON object for one search match.
pub open spec fn json_of_match(m: SearchMatch) -> Seq<char> {
    "{\"symbol\":\""@ + json_escaped(m.symbol@) + "\",\"short_name\":\""@ + json_escaped(
        m.short_name@,
    ) + "\",\"long_name\":\""@ + json_escaped(m.long_name@) + "\",\"exchange\":\""@ + json_escaped(
        m.exchange@,
    ) + "\",\"quote_type\":\""@ + json_escaped(m.quote_type@) + "\"}"@
}

fn render_match(m: &SearchMatch) -> (out: String)
    ensures
        out@ == json_of_match(*m),
{
    let mut s = "{\"symbol\":\"".to_owned();
    let symbol = escape_json(m.symbol.as_str());
    s.append(symbol.as_str());
    s.append("\",\"short_name\":\"");
    let short_name = escape_json(m.short_name.as_str());
    s.append(short_name.as_str());
    s.append("\",\"long_name\":\"");
    let long_name = escape_json(m.long_name.as_str());
    s.append(long_name.as_str());
    s.append("\",\"exchange\":\"");
    let exchange = escape_json(m.exchange.as_str());
    s.append(exchange.as_str());
    s.append("\",\"quote_type\":\"");
    let quote_type = escape_json(m.quote_type.as_str());
    s.append(quote_type.as_str());
    s.append("\"}");
    s
}

/// The comma-separated bodies of a JSON array of bars, in series order.
pub open spec fn json_of_rows(rows: Seq<OhlcvRecord>) -> Seq<char>
    decreases rows.len(),
{
    if rows.len() == 0 {
        Seq::empty()
    } else if rows.len() == 1 {
        json_of_record(rows[0])
    } else {
        json_of_rows(rows.drop_last()) + ","@ + json_of_record(rows.last())
    }
}

fn render_rows(rows: &Vec<OhlcvRecord>) -> (out: String)
    ensures
        out@ == json_of_rows(rows@),
{
    let mut s = String::new();
    let mut i: usize = 0;
    while i < rows.len()
        invariant
            i <= rows@.len(),
            s@ == json_of_rows(rows@.take(i as int)),
        decreases rows@.len() - i,
    {
        if i > 0 {
            s.append(",");
        }
        let piece = render_record(&rows[i]);
        s.append(piece.as_str());
        proof {
            assert(rows@.take(i as int + 1).drop_last() =~= rows@.take(i as int));
            assert(rows@.take(i as int + 1).last() == rows@[i as int]);
            assert(s@ =~= json_of_rows(rows@.take(i as int + 1)));
        }
        i += 1;
    }
    proof {
        assert(rows@.take(rows@.len() as int) =~= rows@);
    }
    s
}

/// The comma-separated bodies of a JSON array of matches, in provider order.
pub open spec fn json_of_matches(found: Seq<SearchMatch>) -> Seq<char>
    decreases found.len(),
{
    if found.len() == 0 {
        Seq::empty()
    } else if found.len() == 1 {
        json_of_match(found[0])
    } else {
        json_of_matches(found.drop_last()) + ","@ + json_of_match(found.last())
    }
}

fn render_matches(found: &Vec<SearchMatch>) -> (out: String)
    ensures
        out@ == json_of_matches(found@),
{
    let mut s = String::new();
    let mut i: usize = 0;
    while i < found.len()
        invariant
            i <= found@.len(),
            s@ == json_of_matches(found@.take(i as int)),
        decreases found@.len() - i,
    {
        if i > 0 {
            s.append(",");
        }
        let piece = render_match(&found[i]);
        s.append(piece.as_str());
        proof {
            assert(found@.take(i as int + 1).drop_last() =~= found@.take(i as int));
            assert(found@.take(i as int + 1).last() == found@[i as int]);
            assert(s@ =~= json_of_matches(found@.take(i as int + 1)));
        }
        i += 1;
    }
    proof {
        assert(found@.take(found@.len() as int) =~= found@);
    }
    s
}

/// The JSON text of a success payload: an array of bar objects, one quote
/// object, or an array of match objects.
pub open spec fn json_of_payload(p: Payload) -> Seq<char> {
    match p {
        Payload::PayHistorical(rows) => "["@ + json_of_rows(rows@) + "]"@,
        Payload::PayQuote(ticker, r) => json_of_quote(ticker@, r),
        Payload::PaySearch(found) => "["@ + json_of_matches(found@) + "]"@,
    }
}

/// Render a success payload as its JSON text.
pub fn render_payload(p: &Payload) -> (out: String)
    ensures
        out@ == json_of_payload(*p),
{
    match p {
        Payload::PayHistorical(rows) => {
            let mut s = "[".to_owned();
            let body = render_rows(rows);
            s.append(body.as_str());
            s.append("]");
            s
        },
        Payload::PayQuote(ticker, r) => render_quote(ticker, r),
        Payload::PaySearch(found) => {
            let mut s = "[".to_owned();
            let body = render_matches(found);
            s.append(body.as_str());
            s.append("]");
            s
        },
    }
}

} // verus!
