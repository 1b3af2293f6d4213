//! The market-data stream: the subscription URL and the decode step that
//! turns one wire payload into one update for the consumer.

use vstd::prelude::*;
use vstd::string::{StringExecFns, StrSliceExecFns};

verus! {

/// The quote-currency text removed from a wire symbol to recover the asset
/// name.
pub open spec fn quote_suffix() -> Seq<char> {
    seq!['U', 'S', 'D', 'T']
}

/// Removal of the quote-currency suffix, and of it alone: when the symbol
/// ends in the quote text, the last four characters are dropped; any other
/// symbol passes through unchanged.
pub open spec fn strip_quote(s: Seq<char>) -> Seq<char> {
    if s.len() >= 4 && s.subrange(s.len() - 4, s.len() as int) == quote_suffix() {
        s.take(s.len() - 4)
    } else {
        s
    }
}

/// Removes the trailing quote-currency suffix from a wire symbol:
/// `"BTCUSDT"` becomes `"BTC"`; a symbol without the suffix, such as
/// `"USDTBTC"`, is returned unchanged.
pub fn strip_quote_suffix(s: &str) -> (r: String)
    ensures
        r@ == strip_quote(s@),
{
    let len = s.unicode_len();
    if len >= 4 && s.get_char(len - 4) == 'U' && s.get_char(len - 3) == 'S' && s.get_char(len - 2)
        == 'D' && s.get_char(len - 1) == 'T' {
        proof {
            assert(s@.subrange(len - 4, len as int) =~= quote_suffix());
        }
        let kept = s.substring_char(0, len - 4);
        proof {
            assert(kept@ =~= s@.take(len - 4));
        }
        kept.to_owned()
    } else {
        proof {
            if s@.len() >= 4 {
                let w = s@.subrange(len - 4, len as int);
                assert(w[0] == s@[len - 4] && w[1] == s@[len - 3] && w[2] == s@[len - 2] && w[3]
                    == s@[len - 1]);
                assert(w != quote_suffix());
            }
        }
        s.to_owned()
    }
}

/// What lowercasing a symbol yields. Relies on `str::to_lowercase`: the
/// result depends on the characters alone.
pub uninterp spec fn lower_of(s: Seq<char>) -> Seq<char>;

/// Relies on `str::to_lowercase`: the result is a function of the
/// characters alone.
#[verifier::external_body]
fn to_lowercase(s: &str) -> (r: String)
    ensures
        r@ == lower_of(s@),
{
    s.to_lowercase()
}

/// The stream name subscribed for one asset: the lowercased asset name
/// followed by the fixed quote-currency and channel suffix.
pub open spec fn stream_name_of(sym: Seq<char>) -> Seq<char> {
    lower_of(sym) + "usdt@bookTicker"@
}

/// Stream names joined with the path separator `/`.
pub open spec fn joined_streams(names: Seq<Seq<char>>) -> Seq<char>
    decreases names.len(),
{
    if names.len() == 0 {
        Seq::empty()
    } else if names.len() == 1 {
        names[0]
    } else {
        names[0] + seq!['/'] + joined_streams(names.drop_first())
    }
}

proof fn lemma_joined_push(names: Seq<Seq<char>>, x: Seq<char>)
    ensures
        joined_streams(names.push(x)) == if names.len() == 0 {
            x
        } else {
            joined_streams(names) + seq!['/'] + x
        },
    decreases names.len(),
{
    if names.len() == 0 {
        assert(names.push(x).len() == 1);
        assert(names.push(x)[0] == x);
    } else {
        lemma_joined_push(names.drop_first(), x);
        assert(names.push(x).drop_first() =~= names.drop_first().push(x));
        assert(names.push(x)[0] == names[0]);
        if names.len() == 1 {
            assert(joined_streams(names.push(x)) =~= joined_streams(names) + seq!['/'] + x);
        } else {
            assert(joined_streams(names.push(x)) =~= joined_streams(names) + seq!['/'] + x);
        }
    }
}

/// The full subscription URL for a set of assets: the fixed feed endpoint
/// followed by one stream name per asset, joined with `/`.
pub open spec fn stream_url_of(symbols: Seq<Seq<char>>) -> Seq<char> {
    "wss://fstream.binance.com/stream?streams="@ + joined_streams(
        symbols.map_values(|s: Seq<char>| stream_name_of(s)),
    )
}

/// Builds the subscription URL the listener connects to.
pub fn build_stream_url(assets: &Vec<String>) -> (r: String)
    ensures
        r@ == stream_url_of(assets@.map_values(|a: String| a@)),
{
    let ghost names = assets@.map_values(|a: String| a@).map_values(
        |s: Seq<char>| stream_name_of(s),
    );
    let mut streams = String::new();
    let mut i: usize = 0;
    proof {
        assert(names.take(0) =~= Seq::<Seq<char>>::empty());
        reveal_strlit("/");
    }
    let n = assets.len();
    while i < n
        invariant
            i <= n,
            n == assets.len(),
            names == assets@.map_values(|a: String| a@).map_values(
                |s: Seq<char>| stream_name_of(s),
            ),
            names.len() == n,
            streams@ == joined_streams(names.take(i as int)),
        decreases n - i,
    {
        if i > 0 {
            streams.append("/");
        }
        let lower = to_lowercase(assets[i].as_str());
        streams.append(lower.as_str());
        streams.append("usdt@bookTicker");
        proof {
            reveal_strlit("/");
            assert(names[i as int] == stream_name_of(assets@[i as int]@));
            assert("/"@ =~= seq!['/']);
            lemma_joined_push(names.take(i as int), names[i as int]);
            assert(names.take(i + 1) =~= names.take(i as int).push(names[i as int]));
            assert(streams@ =~= joined_streams(names.take(i + 1)));
        }
        i = i + 1;
    }
    proof {
        assert(names.take(names.len() as int) =~= names);
    }
    let mut url = "wss://fstream.binance.com/stream?streams=".to_owned();
    url.append(streams.as_str());
    url
}

/// One decoded book-ticker payload as it stands on the wire: the symbol
/// and the four numeric fields, all still as decimal strings. The wire
/// keys are `s`, `b`, `B`, `a`, `A`; the two quantities are `bq` and `aq`
/// here.
#[derive(Debug, PartialEq, Eq)]
pub struct BookTickerData {
    pub s: String,
    pub b: String,
    pub bq: String,
    pub a: String,
    pub aq: String,
}

/// One update ready for dispatch to the consumer: the symbol with the
/// quote suffix stripped; price and quantity fields kept as the wire's
/// decimal strings (the embedding application parses them to floating
/// point, defaulting a field that fails to parse to zero).
#[derive(Debug, PartialEq, Eq)]
pub struct DepthUpdate {
    pub s: String,
    pub bb: String,
    pub bq: String,
    pub ba: String,
    pub aq: String,
}

/// How a dispatched update relates to the payload it was decoded from.
pub open spec fn is_update_for(u: DepthUpdate, d: BookTickerData) -> bool {
    &&& u.s@ == strip_quote(d.s@)
    &&& u.bb@ == d.b@
    &&& u.bq@ == d.bq@
    &&& u.ba@ == d.a@
    &&& u.aq@ == d.aq@
}

/// Turns one decoded payload into the update handed to the consumer.
pub fn make_update(d: BookTickerData) -> (u: DepthUpdate)
    ensures
        is_update_for(u, d),
{
    let s = strip_quote_suffix(d.s.as_str());
    DepthUpdate { s, bb: d.b, bq: d.bq, ba: d.a, aq: d.aq }
}

/// The decode policy for one text frame: a payload under the optional
/// `data` field yields exactly one update; a frame without one (or one
/// that did not parse at all) yields none and is skipped.
pub fn decode_payload(parsed: Option<BookTickerData>) -> (r: Option<DepthUpdate>)
    ensures
        parsed matches Some(d) ==> r matches Some(u) && is_update_for(u, d),
        parsed is None ==> r is None,
{
    match parsed {
        Some(d) => Some(make_update(d)),
        None => None,
    }
}

} // verus!
