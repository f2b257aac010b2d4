//! The addresses that quotes and ticker lookups are fetched from.
use vstd::prelude::*;
use crate::json::opt_text;
use crate::text::{chars_of, string_of_range, to_upper, upper_spec};

verus! {

/// Names the path (`Url::path`) of the URL that `reqwest::Url::parse` reads from
/// `url`, or `None` where `url` does not parse.
pub uninterp spec fn url_path_spec(url: Seq<char>) -> Option<Seq<char>>;

/// The path of the URL `url` (`reqwest::Url::parse`, then `Url::path`), percent-encoded
/// as the URL standard asks. Trusted: the result is `url_path_spec` of `url`; which
/// texts parse and how the path is encoded is left to the `url` crate and not stated here.
#[verifier::external_body]
fn parsed_url_path(url: &str) -> (r: Option<String>)
    ensures
        opt_text(r) == url_path_spec(url@),
{
    match reqwest::Url::parse(url) {
        Ok(u) => Some(u.path().to_string()),
        Err(_) => None,
    }
}

/// `s` without its leading `/` characters (`str::trim_start_matches('/')`).
pub open spec fn strip_slashes(s: Seq<char>) -> Seq<char>
    decreases s.len(),
{
    if s.len() > 0 && s[0] == '/' {
        strip_slashes(s.drop_first())
    } else {
        s
    }
}

/// Where the quote page of `symbol` lives on CMoney.
pub open spec fn cmoney_url_spec(symbol: Seq<char>) -> Seq<char> {
    "https://www.cmoney.tw/forum/usstock/"@ + symbol
}

/// The Yahoo Finance chart address of `symbol`, its ticker made safe for a URL path
/// by reading it as the path of `https://x/`.
pub open spec fn yahoo_url_spec(symbol: Seq<char>) -> Option<Seq<char>> {
    match url_path_spec("https://x/"@ + symbol) {
        None => None,
        Some(p) => Some(
            "https://query1.finance.yahoo.com/v8/finance/chart/"@ + strip_slashes(p)
                + "?interval=1d&range=1d"@,
        ),
    }
}

/// Where the quote page of `symbol` lives on CMoney.
pub fn cmoney_url(symbol: &str) -> (r: String)
    ensures
        r@ == cmoney_url_spec(symbol@),
{
    let mut u = String::from_str("https://www.cmoney.tw/forum/usstock/");
    u.append(symbol);
    u
}

fn without_leading_slashes(s: &str) -> (r: String)
    ensures
        r@ == strip_slashes(s@),
{
    let v = chars_of(s);
    let mut i: usize = 0;
    assert(v@.skip(0) == v@);
    while i < v.len() && v[i] == '/'
        invariant
            i <= v@.len(),
            strip_slashes(v@) == strip_slashes(v@.skip(i as int)),
        decreases v.len() - i,
    {
        assert(v@.skip(i as int).drop_first() == v@.skip(i + 1));
        i = i + 1;
    }
    assert(v@.subrange(i as int, v@.len() as int) == v@.skip(i as int));
    string_of_range(&v, i, v.len())
}

/// The Yahoo Finance chart address of `symbol`, or `None` where the ticker does not
/// make a URL path.
pub fn yahoo_chart_url(symbol: &str) -> (r: Option<String>)
    ensures
        opt_text(r) == yahoo_url_spec(symbol@),
{
    let mut probe = String::from_str("https://x/");
    probe.append(symbol);
    let path = match parsed_url_path(probe.as_str()) {
        Some(p) => p,
        None => return None,
    };
    let stripped = without_leading_slashes(path.as_str());
    let mut u = String::from_str("https://query1.finance.yahoo.com/v8/finance/chart/");
    u.append(stripped.as_str());
    u.append("?interval=1d&range=1d");
    Some(u)
}

/// The chart address that a lookup of the typed `query` asks: the query in upper case.
pub open spec fn lookup_url_spec(query: Seq<char>) -> Option<Seq<char>> {
    yahoo_url_spec(upper_spec(query))
}

/// The chart address that a lookup of the typed `query` asks.
pub fn lookup_url(query: &str) -> (r: Option<String>)
    ensures
        opt_text(r) == lookup_url_spec(query@),
{
    let symbol = to_upper(query);
    yahoo_chart_url(symbol.as_str())
}

/// The CMoney address of a ticker is the forum prefix followed by the whole ticker.
pub proof fn law_cmoney_url_ends_in_ticker(symbol: Seq<char>)
    ensures
        cmoney_url_spec(symbol).len() == "https://www.cmoney.tw/forum/usstock/"@.len()
            + symbol.len(),
        cmoney_url_spec(symbol).take("https://www.cmoney.tw/forum/usstock/"@.len() as int)
            == "https://www.cmoney.tw/forum/usstock/"@,
        cmoney_url_spec(symbol).skip("https://www.cmoney.tw/forum/usstock/"@.len() as int)
            == symbol,
{
    let pre = "https://www.cmoney.tw/forum/usstock/"@;
    assert((pre + symbol).take(pre.len() as int) =~= pre);
    assert((pre + symbol).skip(pre.len() as int) =~= symbol);
}

/// Stripping leading slashes drops only `/` characters from the front and leaves a text
/// that does not start with `/`.
pub proof fn law_strip_slashes(s: Seq<char>)
    ensures
        strip_slashes(s).len() <= s.len(),
        strip_slashes(s) == s.skip(s.len() - strip_slashes(s).len()),
        forall|k: int| 0 <= k < s.len() - strip_slashes(s).len() ==> #[trigger] s[k] == '/',
        strip_slashes(s).len() > 0 ==> strip_slashes(s)[0] != '/',
    decreases s.len(),
{
    if s.len() > 0 && s[0] == '/' {
        law_strip_slashes(s.drop_first());
        assert(s.drop_first().skip(s.drop_first().len() - strip_slashes(s).len()) =~= s.skip(
            s.len() - strip_slashes(s).len(),
        ));
        assert forall|k: int| 0 <= k < s.len() - strip_slashes(s).len() implies #[trigger] s[k]
            == '/' by {
            if k > 0 {
                assert(s[k] == s.drop_first()[k - 1]);
            }
        }
    } else {
        assert(s.skip(0) == s);
    }
}

/// The Yahoo chart address of a ticker that makes a URL path is the chart prefix, the
/// path without its leading slashes, and the one-day query.
pub proof fn law_yahoo_url_shape(symbol: Seq<char>, path: Seq<char>)
    requires
        url_path_spec("https://x/"@ + symbol) == Some(path),
    ensures
        yahoo_url_spec(symbol) matches Some(u) && {
            let pre = "https://query1.finance.yahoo.com/v8/finance/chart/"@;
            let post = "?interval=1d&range=1d"@;
            &&& u.take(pre.len() as int) == pre
            &&& u.skip(u.len() - post.len()) == post
            &&& u.subrange(pre.len() as int, u.len() - post.len()) == strip_slashes(path)
        },
{
    let pre = "https://query1.finance.yahoo.com/v8/finance/chart/"@;
    let post = "?interval=1d&range=1d"@;
    let u = pre + strip_slashes(path) + post;
    assert(u.take(pre.len() as int) =~= pre);
    assert(u.skip(u.len() - post.len()) =~= post);
    assert(u.subrange(pre.len() as int, u.len() - post.len()) =~= strip_slashes(path));
}

} // verus!
