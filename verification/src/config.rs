//! The watch list and refresh interval that the tracker keeps on disk.
use vstd::prelude::*;

verus! {

/// One tracked stock: its ticker and the name shown for it.
#[derive(Clone, Debug)]
pub struct StockItem {
    pub id: String,
    pub name: String,
}

impl View for StockItem {
    type V = (Seq<char>, Seq<char>);

    open spec fn view(&self) -> (Seq<char>, Seq<char>) {
        (self.id@, self.name@)
    }
}

impl StockItem {
    /// A copy of this item.
    pub fn duplicate(&self) -> (r: StockItem)
        ensures
            r@ == self@,
    {
        StockItem { id: self.id.clone(), name: self.name.clone() }
    }
}

/// Refresh interval in seconds and the tracked stocks, in display order.
#[derive(Clone, Debug)]
pub struct Config {
    pub interval: u64,
    pub watchlist: Vec<StockItem>,
}

/// The tickers and names that a fresh configuration tracks.
pub open spec fn default_watchlist() -> Seq<(Seq<char>, Seq<char>)> {
    seq![
        ("TSLA"@, "特斯拉"@),
        ("NVDA"@, "輝達"@),
        ("TSM"@, "台積電"@),
        ("AAPL"@, "蘋果"@),
        ("MSFT"@, "微軟"@),
        ("GOOGL"@, "谷歌"@),
        ("AMZN"@, "亞馬遜"@),
        ("INTC"@, "英特爾"@),
        ("META"@, "臉書"@),
    ]
}

/// The tracked stocks of `c` as (ticker, name) pairs.
pub open spec fn watchlist_view(w: Seq<StockItem>) -> Seq<(Seq<char>, Seq<char>)> {
    w.map_values(|s: StockItem| s@)
}

fn item(id: &str, name: &str) -> (r: StockItem)
    ensures
        r@ == (id@, name@),
{
    StockItem { id: String::from_str(id), name: String::from_str(name) }
}

impl Default for Config {
    /// Ten seconds between refreshes and nine well-known tickers.
    fn default() -> (c: Config)
        ensures
            c.interval == 10,
            watchlist_view(c.watchlist@) == default_watchlist(),
    {
        let mut w: Vec<StockItem> = Vec::new();
        w.push(item("TSLA", "特斯拉"));
        w.push(item("NVDA", "輝達"));
        w.push(item("TSM", "台積電"));
        w.push(item("AAPL", "蘋果"));
        w.push(item("MSFT", "微軟"));
        w.push(item("GOOGL", "谷歌"));
        w.push(item("AMZN", "亞馬遜"));
        w.push(item("INTC", "英特爾"));
        w.push(item("META", "臉書"));
        assert(watchlist_view(w@) =~= default_watchlist());
        Config { interval: 10, watchlist: w }
    }
}

} // verus!
