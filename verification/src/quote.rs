//! A quote row of the table, generic over the number type that holds prices.
use vstd::prelude::*;
use crate::config::StockItem;

verus! {

/// One row of the quote table. `N` is the number type of prices and volumes.
#[derive(Clone, Debug)]
pub struct StockQuote<N> {
    pub id: String,
    pub name: String,
    pub price: Option<N>,
    pub change: Option<N>,
    pub pct: Option<N>,
    pub prev: Option<N>,
    pub open: Option<N>,
    pub high: Option<N>,
    pub low: Option<N>,
    pub volume: Option<N>,
    pub source: String,
}

/// The row shown for `code` when no source gave a quote: no numbers, source `N/A`.
pub fn empty_quote<N>(code: &str) -> (q: StockQuote<N>)
    ensures
        is_empty_quote(q, code@),
{
    StockQuote {
        id: String::from_str(code),
        name: String::from_str(code),
        price: None,
        change: None,
        pct: None,
        prev: None,
        open: None,
        high: None,
        low: None,
        volume: None,
        source: String::from_str("N/A"),
    }
}

/// The name shown for a fetched quote of `item`: the watch list's name, unless the
/// source gave a name and the watch list names the stock by its ticker.
pub open spec fn resolved_name_spec(fetched: Seq<char>, item: (Seq<char>, Seq<char>)) -> Seq<
    char,
> {
    if fetched.len() == 0 {
        item.1
    } else if item.1 != item.0 {
        item.1
    } else {
        fetched
    }
}

/// The name shown for a fetched quote whose source named it `fetched`.
pub fn resolve_name(fetched: &String, item: &StockItem) -> (r: String)
    ensures
        r@ == resolved_name_spec(fetched@, item@),
{
    if fetched.as_str().is_empty() {
        item.name.clone()
    } else if item.name != item.id {
        item.name.clone()
    } else {
        fetched.clone()
    }
}

impl<N> StockQuote<N> {
    /// Gives this quote the name that the watch list entry `item` calls for.
    pub fn adopt_name(&mut self, item: &StockItem)
        ensures
            final(self).name@ == resolved_name_spec(old(self).name@, item@),
            final(self).id == old(self).id,
            final(self).price == old(self).price,
            final(self).change == old(self).change,
            final(self).pct == old(self).pct,
            final(self).prev == old(self).prev,
            final(self).open == old(self).open,
            final(self).high == old(self).high,
            final(self).low == old(self).low,
            final(self).volume == old(self).volume,
            final(self).source == old(self).source,
    {
        let n = resolve_name(&self.name, item);
        self.name = n;
    }
}

/// Where quotes come from.
#[derive(Clone, Copy, Debug, PartialEq, Eq, Structural)]
pub enum QuoteSource {
    CMoney,
    Yahoo,
}

/// The row of `code` that no source filled: the ticker as its name, no figures,
/// source `N/A`.
pub open spec fn is_empty_quote<N>(q: StockQuote<N>, code: Seq<char>) -> bool {
    &&& q.id@ == code
    &&& q.name@ == code
    &&& q.price is None
    &&& q.change is None
    &&& q.pct is None
    &&& q.prev is None
    &&& q.open is None
    &&& q.high is None
    &&& q.low is None
    &&& q.volume is None
    &&& q.source@ == "N/A"@
}

/// The source to ask after `source` gave no quote: CMoney first, then Yahoo, then none.
pub open spec fn next_source(source: QuoteSource) -> Option<QuoteSource> {
    match source {
        QuoteSource::CMoney => Some(QuoteSource::Yahoo),
        QuoteSource::Yahoo => None,
    }
}

/// What follows when `source` answered `answer` for `code`: `Ok` holds the row to show,
/// `Err` the source to ask next.
pub open spec fn answer_step<N>(
    source: QuoteSource,
    answer: Option<StockQuote<N>>,
    code: Seq<char>,
    r: Result<StockQuote<N>, QuoteSource>,
) -> bool {
    match answer {
        Some(q) => r == Ok::<StockQuote<N>, QuoteSource>(q),
        None => match next_source(source) {
            Some(n) => r == Err::<StockQuote<N>, QuoteSource>(n),
            None => r matches Ok(q) && is_empty_quote(q, code),
        },
    }
}

/// The source to ask first for a quote.
pub fn first_source() -> (s: QuoteSource)
    ensures
        s == QuoteSource::CMoney,
{
    QuoteSource::CMoney
}

/// Decides what follows when `source` answered `answer` for the ticker `code`: the
/// first quote that a source gives is the row; without one the next source is asked,
/// and when none is left the row is `empty_quote(code)`.
pub fn after_answer<N>(source: QuoteSource, answer: Option<StockQuote<N>>, code: &str) -> (r:
    Result<StockQuote<N>, QuoteSource>)
    ensures
        answer_step(source, answer, code@, r),
{
    match answer {
        Some(q) => Ok(q),
        None => match source {
            QuoteSource::CMoney => Err(QuoteSource::Yahoo),
            QuoteSource::Yahoo => Ok(empty_quote(code)),
        },
    }
}

/// Asking CMoney and then, if it gave nothing, Yahoo shows the first quote given, or
/// the empty row when neither gave one; no third source is ever asked.
pub proof fn law_first_answer_wins<N>(
    code: Seq<char>,
    a1: Option<StockQuote<N>>,
    r1: Result<StockQuote<N>, QuoteSource>,
    a2: Option<StockQuote<N>>,
    r2: Result<StockQuote<N>, QuoteSource>,
)
    requires
        answer_step(QuoteSource::CMoney, a1, code, r1),
        r1 is Err ==> r1 == Err::<StockQuote<N>, QuoteSource>(QuoteSource::Yahoo) && answer_step(
            QuoteSource::Yahoo,
            a2,
            code,
            r2,
        ),
    ensures
        a1 matches Some(q) ==> r1 == Ok::<StockQuote<N>, QuoteSource>(q),
        a1 is None ==> r1 == Err::<StockQuote<N>, QuoteSource>(QuoteSource::Yahoo) && r2 is Ok,
        a1 is None ==> (a2 matches Some(q) ==> r2 == Ok::<StockQuote<N>, QuoteSource>(q)),
        a1 is None && a2 is None ==> (r2 matches Ok(q) && is_empty_quote(q, code)),
{
}

/// Whatever a source calls a quote, the table shows the watch list's name for it,
/// when the source gave no name or gave the ticker itself.
pub proof fn law_row_shows_watchlist_name(fetched: Seq<char>, item: (Seq<char>, Seq<char>))
    requires
        fetched.len() == 0 || fetched == item.0,
    ensures
        resolved_name_spec(fetched, item) == item.1,
{
}

/// A watch-list entry named by something other than its ticker always shows that name;
/// one named by its ticker shows the source's name when the source gave one.
pub proof fn law_row_name_choice(fetched: Seq<char>, item: (Seq<char>, Seq<char>))
    ensures
        item.1 != item.0 ==> resolved_name_spec(fetched, item) == item.1,
        item.1 == item.0 && fetched.len() > 0 ==> resolved_name_spec(fetched, item) == fetched,
{
}

} // verus!
