//! A JSON document held as plain values, and what the tracker reads out of the
//! Yahoo Finance chart document.
use vstd::prelude::*;

verus! {

/// A JSON value. A number keeps the text that `serde_json` prints for it; an object
/// keeps its members in order, each key once.
pub enum JsonValue {
    Null,
    Bool(bool),
    Number(String),
    Text(String),
    Array(Vec<JsonValue>),
    Object(Vec<(String, JsonValue)>),
}

/// The value of the first member named `key`.
pub open spec fn lookup_member(members: Seq<(String, JsonValue)>, key: Seq<char>) -> Option<
    JsonValue,
>
    decreases members.len(),
{
    if members.len() == 0 {
        None
    } else if members[0].0@ == key {
        Some(members[0].1)
    } else {
        lookup_member(members.drop_first(), key)
    }
}

/// The member `key` of `v`, when `v` is an object that has one (`Value::get`).
pub open spec fn field_spec(v: JsonValue, key: Seq<char>) -> Option<JsonValue> {
    match v {
        JsonValue::Object(members) => lookup_member(members@, key),
        _ => None,
    }
}

/// The member `key` of `v`, when there is a `v` and it has one.
pub open spec fn field_of(v: Option<JsonValue>, key: Seq<char>) -> Option<JsonValue> {
    match v {
        Some(x) => field_spec(x, key),
        None => None,
    }
}

/// The first element of `v`, when `v` is a non-empty array.
pub open spec fn first_spec(v: Option<JsonValue>) -> Option<JsonValue> {
    match v {
        Some(JsonValue::Array(items)) => if items@.len() > 0 {
            Some(items@[0])
        } else {
            None
        },
        _ => None,
    }
}

/// The value that a reference designates.
pub open spec fn deref_opt(r: Option<&JsonValue>) -> Option<JsonValue> {
    match r {
        Some(x) => Some(*x),
        None => None,
    }
}

impl JsonValue {
    /// The member `key` of this value, when it is an object that has one.
    pub fn get(&self, key: &str) -> (r: Option<&JsonValue>)
        ensures
            deref_opt(r) == field_spec(*self, key@),
    {
        match self {
            JsonValue::Object(members) => {
                let k = String::from_str(key);
                let mut i: usize = 0;
                assert(members@.skip(0) == members@);
                while i < members.len()
                    invariant
                        i <= members@.len(),
                        k@ == key@,
                        field_spec(*self, key@) == lookup_member(members@, key@),
                        lookup_member(members@, key@) == lookup_member(
                            members@.skip(i as int),
                            key@,
                        ),
                    decreases members.len() - i,
                {
                    assert(members@.skip(i as int)[0] == members@[i as int]);
                    if members[i].0 == k {
                        return Some(&members[i].1);
                    }
                    assert(members@.skip(i as int).drop_first() == members@.skip(i + 1));
                    i = i + 1;
                }
                None
            },
            _ => None,
        }
    }

    /// The first element of this value, when it is a non-empty array.
    pub fn first(&self) -> (r: Option<&JsonValue>)
        ensures
            deref_opt(r) == first_spec(Some(*self)),
    {
        match self {
            JsonValue::Array(items) => if items.len() > 0 {
                Some(&items[0])
            } else {
                None
            },
            _ => None,
        }
    }
}

/// The first element of `result` of the `chart` member, with its `meta` member.
pub open spec fn result_meta_spec(root: JsonValue) -> Option<(JsonValue, JsonValue)> {
    match first_spec(field_of(field_spec(root, "chart"@), "result"@)) {
        None => None,
        Some(result) => match field_spec(result, "meta"@) {
            None => None,
            Some(meta) => Some((result, meta)),
        },
    }
}

/// The text to read a price from: a number's text or a string.
pub open spec fn float_text_spec(v: Option<JsonValue>) -> Option<Seq<char>> {
    match v {
        Some(JsonValue::Number(t)) => Some(t@),
        Some(JsonValue::Text(s)) => Some(s@),
        _ => None,
    }
}

/// The text of a number.
pub open spec fn number_text_spec(v: Option<JsonValue>) -> Option<Seq<char>> {
    match v {
        Some(JsonValue::Number(t)) => Some(t@),
        _ => None,
    }
}

/// The text of the first number among `items`.
pub open spec fn first_number_spec(items: Seq<JsonValue>) -> Option<Seq<char>>
    decreases items.len(),
{
    if items.len() == 0 {
        None
    } else {
        match items[0] {
            JsonValue::Number(t) => Some(t@),
            _ => first_number_spec(items.drop_first()),
        }
    }
}

/// The opening price's text: the first number of `indicators.quote[0].open`.
pub open spec fn open_spec(result: JsonValue) -> Option<Seq<char>> {
    match field_of(first_spec(field_of(field_spec(result, "indicators"@), "quote"@)), "open"@) {
        Some(JsonValue::Array(items)) => first_number_spec(items@),
        _ => None,
    }
}

/// `first`, unless it is absent, then `second` (`Option::or`).
pub open spec fn or_spec(first: Option<JsonValue>, second: Option<JsonValue>) -> Option<JsonValue> {
    match first {
        Some(v) => Some(v),
        None => second,
    }
}

/// The texts of the figures of a Yahoo quote, as plain values.
pub struct YahooFields {
    pub price: Option<Seq<char>>,
    pub prev: Option<Seq<char>>,
    pub high: Option<Seq<char>>,
    pub low: Option<Seq<char>>,
    pub volume: Option<Seq<char>>,
    pub open: Option<Seq<char>>,
    pub market_time: Option<Seq<char>>,
}

/// The figures of the quote in a Yahoo chart document.
pub open spec fn yahoo_spec(root: JsonValue) -> Option<YahooFields> {
    match result_meta_spec(root) {
        None => None,
        Some((result, meta)) => Some(
            YahooFields {
                price: float_text_spec(field_spec(meta, "regularMarketPrice"@)),
                prev: float_text_spec(
                    or_spec(
                        field_spec(meta, "chartPreviousClose"@),
                        field_spec(meta, "previousClose"@),
                    ),
                ),
                high: float_text_spec(field_spec(meta, "regularMarketDayHigh"@)),
                low: float_text_spec(field_spec(meta, "regularMarketDayLow"@)),
                volume: float_text_spec(field_spec(meta, "regularMarketVolume"@)),
                open: open_spec(result),
                market_time: number_text_spec(field_spec(meta, "regularMarketTime"@)),
            },
        ),
    }
}

/// The texts of the figures of a Yahoo quote, still to be read as numbers.
pub struct YahooTexts {
    pub price: Option<String>,
    pub prev: Option<String>,
    pub high: Option<String>,
    pub low: Option<String>,
    pub volume: Option<String>,
    pub open: Option<String>,
    pub market_time: Option<String>,
}

/// The view of an optional text.
pub open spec fn opt_text(o: Option<String>) -> Option<Seq<char>> {
    match o {
        Some(s) => Some(s@),
        None => None,
    }
}

impl View for YahooTexts {
    type V = YahooFields;

    open spec fn view(&self) -> YahooFields {
        YahooFields {
            price: opt_text(self.price),
            prev: opt_text(self.prev),
            high: opt_text(self.high),
            low: opt_text(self.low),
            volume: opt_text(self.volume),
            open: opt_text(self.open),
            market_time: opt_text(self.market_time),
        }
    }
}

/// The text to read a price from: a number's text or a string.
pub fn float_text(v: Option<&JsonValue>) -> (r: Option<String>)
    ensures
        opt_text(r) == float_text_spec(deref_opt(v)),
{
    match v {
        Some(JsonValue::Number(t)) => Some(t.clone()),
        Some(JsonValue::Text(s)) => Some(s.clone()),
        _ => None,
    }
}

fn number_text(v: Option<&JsonValue>) -> (r: Option<String>)
    ensures
        opt_text(r) == number_text_spec(deref_opt(v)),
{
    match v {
        Some(JsonValue::Number(t)) => Some(t.clone()),
        _ => None,
    }
}

fn first_number(items: &Vec<JsonValue>) -> (r: Option<String>)
    ensures
        opt_text(r) == first_number_spec(items@),
{
    let mut i: usize = 0;
    assert(items@.skip(0) == items@);
    while i < items.len()
        invariant
            i <= items@.len(),
            first_number_spec(items@) == first_number_spec(items@.skip(i as int)),
        decreases items.len() - i,
    {
        assert(items@.skip(i as int)[0] == items@[i as int]);
        match &items[i] {
            JsonValue::Number(t) => {
                return Some(t.clone());
            },
            _ => {},
        }
        assert(items@.skip(i as int).drop_first() == items@.skip(i + 1));
        i = i + 1;
    }
    None
}

fn field_in<'a>(v: Option<&'a JsonValue>, key: &str) -> (r: Option<&'a JsonValue>)
    ensures
        deref_opt(r) == field_of(deref_opt(v), key@),
{
    match v {
        Some(x) => x.get(key),
        None => None,
    }
}

fn first_in<'a>(v: Option<&'a JsonValue>) -> (r: Option<&'a JsonValue>)
    ensures
        deref_opt(r) == first_spec(deref_opt(v)),
{
    match v {
        Some(x) => x.first(),
        None => None,
    }
}

/// The first element of `chart.result`, with its `meta` member.
pub fn result_meta(root: &JsonValue) -> (r: Option<(&JsonValue, &JsonValue)>)
    ensures
        match r {
            Some((result, meta)) => result_meta_spec(*root) == Some((*result, *meta)),
            None => result_meta_spec(*root) is None,
        },
{
    let result = match first_in(field_in(root.get("chart"), "result")) {
        Some(x) => x,
        None => return None,
    };
    match result.get("meta") {
        Some(meta) => Some((result, meta)),
        None => None,
    }
}

/// The figures of the quote in the Yahoo chart document `root`, as texts;
/// `None` where it has no `chart.result[0].meta`.
pub fn yahoo_texts(root: &JsonValue) -> (r: Option<YahooTexts>)
    ensures
        match r {
            Some(t) => yahoo_spec(*root) == Some(t@),
            None => yahoo_spec(*root) is None,
        },
{
    let (result, meta) = match result_meta(root) {
        Some(p) => p,
        None => return None,
    };
    let prev_value = match meta.get("chartPreviousClose") {
        Some(v) => Some(v),
        None => meta.get("previousClose"),
    };
    let open = match field_in(first_in(field_in(result.get("indicators"), "quote")), "open") {
        Some(JsonValue::Array(items)) => first_number(items),
        _ => None,
    };
    Some(
        YahooTexts {
            price: float_text(meta.get("regularMarketPrice")),
            prev: float_text(prev_value),
            high: float_text(meta.get("regularMarketDayHigh")),
            low: float_text(meta.get("regularMarketDayLow")),
            volume: float_text(meta.get("regularMarketVolume")),
            open,
            market_time: number_text(meta.get("regularMarketTime")),
        },
    )
}

/// The ticker and display name in a Yahoo chart document: `meta.symbol` must be a
/// string; the name is `shortName`, else `longName`, when that is a string, else the ticker.
pub open spec fn symbol_name_spec(root: JsonValue) -> Option<(Seq<char>, Seq<char>)> {
    match result_meta_spec(root) {
        None => None,
        Some((_, meta)) => match field_spec(meta, "symbol"@) {
            Some(JsonValue::Text(sym)) => {
                let name = match or_spec(
                    field_spec(meta, "shortName"@),
                    field_spec(meta, "longName"@),
                ) {
                    Some(JsonValue::Text(n)) => n@,
                    _ => sym@,
                };
                Some((sym@, name))
            },
            _ => None,
        },
    }
}

/// The ticker and display name in the Yahoo chart document `root`.
pub fn symbol_and_name(root: &JsonValue) -> (r: Option<(String, String)>)
    ensures
        match r {
            Some((s, n)) => symbol_name_spec(*root) == Some((s@, n@)),
            None => symbol_name_spec(*root) is None,
        },
{
    let (_, meta) = match result_meta(root) {
        Some(p) => p,
        None => return None,
    };
    let sym = match meta.get("symbol") {
        Some(JsonValue::Text(s)) => s.clone(),
        _ => return None,
    };
    let named = match meta.get("shortName") {
        Some(v) => Some(v),
        None => meta.get("longName"),
    };
    let name = match named {
        Some(JsonValue::Text(n)) => n.clone(),
        _ => sym.clone(),
    };
    Some((sym, name))
}

/// An object's member is found by its key: the value of the first member named `key`,
/// none where no member has that name.
pub proof fn law_get_finds_first_member(members: Vec<(String, JsonValue)>, key: Seq<char>, i: int)
    requires
        0 <= i < members@.len(),
        members@[i].0@ == key,
        forall|j: int| 0 <= j < i ==> (#[trigger] members@[j]).0@ != key,
    ensures
        field_spec(JsonValue::Object(members), key) == Some(members@[i].1),
{
    lemma_lookup_first(members@, key, i);
}

/// No member named `key`: nothing is found.
pub proof fn law_get_absent_member(members: Vec<(String, JsonValue)>, key: Seq<char>)
    requires
        forall|j: int| 0 <= j < members@.len() ==> (#[trigger] members@[j]).0@ != key,
    ensures
        field_spec(JsonValue::Object(members), key) is None,
{
    lemma_lookup_absent(members@, key);
}

proof fn lemma_lookup_first(m: Seq<(String, JsonValue)>, key: Seq<char>, i: int)
    requires
        0 <= i < m.len(),
        m[i].0@ == key,
        forall|j: int| 0 <= j < i ==> (#[trigger] m[j]).0@ != key,
    ensures
        lookup_member(m, key) == Some(m[i].1),
    decreases i,
{
    if i > 0 {
        assert(m[0].0@ != key);
        assert forall|j: int| 0 <= j < i - 1 implies (#[trigger] m.drop_first()[j]).0@ != key by {
            assert(m.drop_first()[j] == m[j + 1]);
        }
        lemma_lookup_first(m.drop_first(), key, i - 1);
    }
}

proof fn lemma_lookup_absent(m: Seq<(String, JsonValue)>, key: Seq<char>)
    requires
        forall|j: int| 0 <= j < m.len() ==> (#[trigger] m[j]).0@ != key,
    ensures
        lookup_member(m, key) is None,
    decreases m.len(),
{
    if m.len() > 0 {
        assert(m[0].0@ != key);
        assert forall|j: int| 0 <= j < m.len() - 1 implies (#[trigger] m.drop_first()[j]).0@
            != key by {
            assert(m.drop_first()[j] == m[j + 1]);
        }
        lemma_lookup_absent(m.drop_first(), key);
    }
}

/// A Yahoo chart document with `chart.result[0].meta` gives a quote whose figures are
/// read from the members of `meta` named `regularMarketPrice`, `regularMarketDayHigh`,
/// `regularMarketDayLow`, `regularMarketVolume`, `regularMarketTime`, and for the
/// previous close `chartPreviousClose`, else `previousClose`; the opening price is the
/// first number of `indicators.quote[0].open`.
pub proof fn law_yahoo_figures_by_member(
    root: JsonValue,
    chart: JsonValue,
    items: Vec<JsonValue>,
    meta: JsonValue,
)
    requires
        field_spec(root, "chart"@) == Some(chart),
        field_spec(chart, "result"@) == Some(JsonValue::Array(items)),
        items@.len() > 0,
        field_spec(items@[0], "meta"@) == Some(meta),
    ensures
        yahoo_spec(root) matches Some(f) && {
            &&& field_spec(meta, "regularMarketPrice"@) matches Some(JsonValue::Number(t))
                ==> f.price == Some(t@)
            &&& field_spec(meta, "regularMarketPrice"@) matches Some(JsonValue::Text(t))
                ==> f.price == Some(t@)
            &&& field_spec(meta, "regularMarketPrice"@) is None ==> f.price is None
            &&& field_spec(meta, "regularMarketDayHigh"@) matches Some(JsonValue::Number(t))
                ==> f.high == Some(t@)
            &&& field_spec(meta, "regularMarketDayHigh"@) is None ==> f.high is None
            &&& field_spec(meta, "regularMarketDayLow"@) matches Some(JsonValue::Number(t))
                ==> f.low == Some(t@)
            &&& field_spec(meta, "regularMarketDayLow"@) is None ==> f.low is None
            &&& field_spec(meta, "regularMarketVolume"@) matches Some(JsonValue::Number(t))
                ==> f.volume == Some(t@)
            &&& field_spec(meta, "regularMarketVolume"@) is None ==> f.volume is None
            &&& field_spec(meta, "regularMarketTime"@) matches Some(JsonValue::Number(t))
                ==> f.market_time == Some(t@)
            &&& !(field_spec(meta, "regularMarketTime"@) matches Some(JsonValue::Number(_)))
                ==> f.market_time is None
            &&& field_spec(meta, "chartPreviousClose"@) matches Some(JsonValue::Number(t))
                ==> f.prev == Some(t@)
            &&& field_spec(meta, "chartPreviousClose"@) is None ==> (field_spec(
                meta,
                "previousClose"@,
            ) matches Some(JsonValue::Number(t)) ==> f.prev == Some(t@))
            &&& field_of(
                first_spec(field_of(field_spec(items@[0], "indicators"@), "quote"@)),
                "open"@,
            ) matches Some(JsonValue::Array(os)) ==> (os@.len() > 0 ==> (os@[0] matches JsonValue::Number(t)
                ==> f.open == Some(t@)))
        },
{
    if let Some(JsonValue::Array(os)) = field_of(
        first_spec(field_of(field_spec(items@[0], "indicators"@), "quote"@)),
        "open"@,
    ) {
        if os@.len() > 0 {
            if let JsonValue::Number(t) = os@[0] {
                assert(first_number_spec(os@) == Some(t@));
            }
        }
    }
}

/// The ticker is the string `meta.symbol`; the name is the string `shortName`, else the
/// string `longName` when `shortName` is absent, else the ticker.
pub proof fn law_symbol_and_name_by_member(
    root: JsonValue,
    chart: JsonValue,
    items: Vec<JsonValue>,
    meta: JsonValue,
    sym: String,
)
    requires
        field_spec(root, "chart"@) == Some(chart),
        field_spec(chart, "result"@) == Some(JsonValue::Array(items)),
        items@.len() > 0,
        field_spec(items@[0], "meta"@) == Some(meta),
        field_spec(meta, "symbol"@) == Some(JsonValue::Text(sym)),
    ensures
        symbol_name_spec(root) matches Some((s, n)) && {
            &&& s == sym@
            &&& field_spec(meta, "shortName"@) matches Some(JsonValue::Text(t)) ==> n == t@
            &&& field_spec(meta, "shortName"@) is None ==> (field_spec(meta, "longName"@) matches Some(
                JsonValue::Text(t),
            ) ==> n == t@)
            &&& (field_spec(meta, "shortName"@) is None && field_spec(meta, "longName"@) is None)
                ==> n == sym@
        },
{
}

/// The opening price is read from the first number of the list: when element `k` is a
/// number and none before it is, that number's text is what is read.
pub proof fn law_first_number(items: Seq<JsonValue>, k: int)
    requires
        0 <= k < items.len(),
        items[k] is Number,
        forall|j: int| 0 <= j < k ==> !(#[trigger] items[j] is Number),
    ensures
        items[k] matches JsonValue::Number(t) && first_number_spec(items) == Some(t@),
    decreases k,
{
    if k > 0 {
        assert(!(items[0] is Number));
        assert forall|j: int| 0 <= j < k - 1 implies !(#[trigger] items.drop_first()[j] is Number) by {
            assert(items.drop_first()[j] == items[j + 1]);
        }
        law_first_number(items.drop_first(), k - 1);
    }
}

/// A list without numbers gives no opening price.
pub proof fn law_no_number(items: Seq<JsonValue>)
    requires
        forall|j: int| 0 <= j < items.len() ==> !(#[trigger] items[j] is Number),
    ensures
        first_number_spec(items) is None,
    decreases items.len(),
{
    if items.len() > 0 {
        assert(!(items[0] is Number));
        assert forall|j: int| 0 <= j < items.len() - 1 implies !(#[trigger] items.drop_first()[j] is Number) by {
            assert(items.drop_first()[j] == items[j + 1]);
        }
        law_no_number(items.drop_first());
    }
}

} // verus!
