//! Reading a quote out of the description of a CMoney stock page.
//!
//! The page's `<meta name="description" content="...">` holds phrases such as
//! `股價 123.4；昨收 120.0；...`. Each figure is the text after its label up to the
//! next `；`, `。` or `;`, with surrounding white space removed.
use vstd::prelude::*;
use crate::text::{
    chars_of, contains_text, find_any, find_any_from, find_from, find_text, index_of,
    lemma_find_any_from, lemma_find_from, occurs_at, remove_char, slice_of, string_of, trim_spec,
    trimmed_string, without, lemma_find_from_first, lemma_occurs_found, lemma_find_any_first,
};

verus! {

/// Marks the description `<meta>` tag.
pub open spec fn meta_marker() -> Seq<char> {
    "name=\"description\""@
}

/// Opens the `content` attribute.
pub open spec fn content_marker() -> Seq<char> {
    "content=\""@
}

/// A description that does not mention the price (`股價`) describes no quote.
pub open spec fn price_label() -> Seq<char> {
    "股價"@
}

/// The characters that end a figure.
pub open spec fn field_ends() -> Seq<char> {
    seq!['；', '。', ';']
}

/// The description text of a page, when the page has one that mentions the price.
pub open spec fn description_spec(body: Seq<char>) -> Option<Seq<char>> {
    match index_of(body, meta_marker()) {
        None => None,
        Some(m) => match find_from(body, content_marker(), m) {
            None => None,
            Some(c) => {
                let start = c + content_marker().len();
                match find_any_from(body, seq!['"'], start) {
                    None => None,
                    Some(e) => {
                        let d = body.subrange(start, e);
                        if contains_text(d, price_label()) {
                            Some(d)
                        } else {
                            None
                        }
                    },
                }
            },
        },
    }
}

/// The text after the first `label` in `desc`, up to the next figure end, trimmed.
pub open spec fn extract_spec(desc: Seq<char>, label: Seq<char>) -> Option<Seq<char>> {
    match index_of(desc, label) {
        None => None,
        Some(i) => {
            let from = i + label.len();
            let raw = match find_any_from(desc, field_ends(), from) {
                Some(e) => desc.subrange(from, e),
                None => desc.skip(from),
            };
            Some(trim_spec(raw))
        },
    }
}

/// A figure as a number's text: thousands separators and percent signs removed, trimmed.
pub open spec fn numeric_text_spec(s: Seq<char>) -> Seq<char> {
    trim_spec(without(without(without(s, ','), '％'), '%'))
}

/// The numeric text of the figure labelled `label`.
pub open spec fn numeric_field(desc: Seq<char>, label: Seq<char>) -> Option<Seq<char>> {
    match extract_spec(desc, label) {
        Some(s) => Some(numeric_text_spec(s)),
        None => None,
    }
}

/// The volume's text: the `成交量` figure, else the `總量` figure, without separators.
pub open spec fn volume_field(desc: Seq<char>) -> Option<Seq<char>> {
    match extract_spec(desc, "成交量"@) {
        Some(s) => Some(without(s, ',')),
        None => match extract_spec(desc, "總量"@) {
            Some(s) => Some(without(s, ',')),
            None => None,
        },
    }
}

/// The texts of the figures of a CMoney quote, as plain values.
pub struct CmoneyFields {
    pub price: Seq<char>,
    pub prev: Option<Seq<char>>,
    pub open: Option<Seq<char>>,
    pub high: Option<Seq<char>>,
    pub low: Option<Seq<char>>,
    pub pct: Option<Seq<char>>,
    pub volume: Option<Seq<char>>,
}

/// The figures of the quote that a CMoney page describes; the price must be there.
pub open spec fn cmoney_spec(body: Seq<char>) -> Option<CmoneyFields> {
    match description_spec(body) {
        None => None,
        Some(d) => match numeric_field(d, price_label()) {
            None => None,
            Some(p) => Some(
                CmoneyFields {
                    price: p,
                    prev: numeric_field(d, "昨收"@),
                    open: numeric_field(d, "開盤"@),
                    high: numeric_field(d, "最高"@),
                    low: numeric_field(d, "最低"@),
                    pct: numeric_field(d, "漲跌幅"@),
                    volume: volume_field(d),
                },
            ),
        },
    }
}

/// The texts of the figures of a CMoney quote, still to be read as numbers.
pub struct CmoneyTexts {
    pub price: String,
    pub prev: Option<String>,
    pub open: Option<String>,
    pub high: Option<String>,
    pub low: Option<String>,
    pub pct: Option<String>,
    pub volume: Option<String>,
}

/// The view of an optional text.
pub open spec fn opt_view(o: Option<String>) -> Option<Seq<char>> {
    match o {
        Some(s) => Some(s@),
        None => None,
    }
}

impl View for CmoneyTexts {
    type V = CmoneyFields;

    open spec fn view(&self) -> CmoneyFields {
        CmoneyFields {
            price: self.price@,
            prev: opt_view(self.prev),
            open: opt_view(self.open),
            high: opt_view(self.high),
            low: opt_view(self.low),
            pct: opt_view(self.pct),
            volume: opt_view(self.volume),
        }
    }
}

/// The description of a CMoney page `body`, when it has one that mentions the price.
pub fn cmoney_description(body: &str) -> (r: Option<String>)
    ensures
        opt_view(r) == description_spec(body@),
{
    let b = chars_of(body);
    let meta = chars_of("name=\"description\"");
    let content = chars_of("content=\"");
    let quote = chars_of("\"");
    let price = chars_of("股價");
    let m = match find_text(&b, &meta, 0) {
        Some(m) => m,
        None => return None,
    };
    let c = match find_text(&b, &content, m) {
        Some(c) => c,
        None => return None,
    };
    proof {
        lemma_find_from(b@, content@, m as int);
        reveal_strlit("\"");
    }
    assert(quote@ =~= seq!['"']);
    let start = c + content.len();
    let e = match find_any(&b, &quote, start) {
        Some(e) => e,
        None => return None,
    };
    proof {
        lemma_find_any_from(b@, quote@, start as int);
    }
    let d = slice_of(&b, start, e);
    match find_text(&d, &price, 0) {
        Some(_) => Some(string_of(&d)),
        None => None,
    }
}

/// The text after the first `label` in `desc`, up to the next `；`, `。` or `;`, trimmed.
pub fn extract_field(desc: &Vec<char>, label: &str) -> (r: Option<Vec<char>>)
    ensures
        match r {
            Some(v) => extract_spec(desc@, label@) == Some(v@),
            None => extract_spec(desc@, label@) is None,
        },
{
    let l = chars_of(label);
    let i = match find_text(desc, &l, 0) {
        Some(i) => i,
        None => return None,
    };
    proof {
        lemma_find_from(desc@, l@, 0);
        assert(occurs_at(desc@, l@, i as int));
    }
    assert(i + l.len() <= desc.len());
    let from = i + l.len();
    let mut ends: Vec<char> = Vec::new();
    ends.push('；');
    ends.push('。');
    ends.push(';');
    assert(ends@ == field_ends());
    let to = match find_any(desc, &ends, from) {
        Some(e) => {
            proof {
                lemma_find_any_from(desc@, ends@, from as int);
            }
            e
        },
        None => desc.len(),
    };
    let raw = slice_of(desc, from, to);
    let (a, b) = crate::text::trim_bounds(&raw);
    Some(slice_of(&raw, a, b))
}

/// A figure as a number's text: `,`, `％` and `%` removed, then trimmed.
pub fn numeric_text(s: &Vec<char>) -> (r: String)
    ensures
        r@ == numeric_text_spec(s@),
{
    let a = remove_char(s, ',');
    let b = remove_char(&a, '％');
    let c = remove_char(&b, '%');
    trimmed_string(&c)
}

fn numeric(desc: &Vec<char>, label: &str) -> (r: Option<String>)
    ensures
        opt_view(r) == numeric_field(desc@, label@),
{
    match extract_field(desc, label) {
        Some(v) => Some(numeric_text(&v)),
        None => None,
    }
}

fn volume(desc: &Vec<char>) -> (r: Option<String>)
    ensures
        opt_view(r) == volume_field(desc@),
{
    let v = match extract_field(desc, "成交量") {
        Some(v) => v,
        None => match extract_field(desc, "總量") {
            Some(v) => v,
            None => return None,
        },
    };
    Some(string_of(&remove_char(&v, ',')))
}

/// The figures of the quote that the CMoney page `body` describes, as texts.
/// `None` where the page describes no quote or gives no price.
pub fn cmoney_texts(body: &str) -> (r: Option<CmoneyTexts>)
    ensures
        match r {
            Some(t) => cmoney_spec(body@) == Some(t@),
            None => cmoney_spec(body@) is None,
        },
{
    let desc = match cmoney_description(body) {
        Some(d) => d,
        None => return None,
    };
    let d = chars_of(desc.as_str());
    let price = match numeric(&d, "股價") {
        Some(p) => p,
        None => return None,
    };
    let t = CmoneyTexts {
        price,
        prev: numeric(&d, "昨收"),
        open: numeric(&d, "開盤"),
        high: numeric(&d, "最高"),
        low: numeric(&d, "最低"),
        pct: numeric(&d, "漲跌幅"),
        volume: volume(&d),
    };
    Some(t)
}

/// A page made of `p`, the description tag's `name="description" content="`, the
/// description `d`, the closing `"` and the rest `r`.
pub open spec fn page_with_description(p: Seq<char>, d: Seq<char>, r: Seq<char>) -> Seq<char> {
    p + "name=\"description\" content=\""@ + d + "\""@ + r
}

/// The description is the `content` attribute that follows the `name="description"`
/// marker: whatever `content="` attributes come before the marker, when no marker starts
/// before it, and the description holds no `"` and mentions the price, it is what is read.
pub proof fn law_description_follows_marker(p: Seq<char>, d: Seq<char>, r: Seq<char>)
    requires
        forall|k: int|
            0 <= k < p.len() ==> !occurs_at(
                page_with_description(p, d, r),
                "name=\"description\""@,
                k,
            ),
        forall|k: int| 0 <= k < d.len() ==> d[k] != '"',
        exists|j: int| occurs_at(d, "股價"@, j),
    ensures
        description_spec(page_with_description(p, d, r)) == Some(d),
{
    let body = page_with_description(p, d, r);
    let tag = "name=\"description\" content=\""@;
    let n = p.len() as int;
    reveal_strlit("name=\"description\" content=\"");
    reveal_strlit("name=\"description\"");
    reveal_strlit("content=\"");
    reveal_strlit("\"");
    assert(tag.len() == 28);
    assert forall|k: int| 0 <= k < 28 implies #[trigger] body[n + k] == tag[k] by {}
    assert(body[n + 28 + d.len()] == '"');
    assert forall|k: int| 0 <= k < d.len() implies #[trigger] body[n + 28 + k] == d[k] by {}
    assert(body.subrange(n, n + 18) =~= meta_marker());
    lemma_find_from_first(body, meta_marker(), 0, n);
    assert(body.subrange(n + 19, n + 28) =~= content_marker());
    assert forall|j: int| n <= j < n + 19 implies !occurs_at(body, content_marker(), j) by {
        if j == n + 9 {
            assert(body.subrange(j, j + 9)[1] != content_marker()[1]);
        } else {
            assert(body.subrange(j, j + 9)[0] != content_marker()[0]);
        }
    }
    lemma_find_from_first(body, content_marker(), n, n + 19);
    let start = n + 28;
    assert forall|j: int| start <= j < start + d.len() implies !seq!['"'].contains(
        #[trigger] body[j],
    ) by {
        assert(body[j] == d[j - start]);
        if seq!['"'].contains(body[j]) {
            assert(seq!['"'][0] == body[j]);
        }
    }
    assert(seq!['"'][0] == body[start + d.len()]);
    lemma_find_any_first(body, seq!['"'], start, start + d.len());
    assert(body.subrange(start, start + d.len()) =~= d);
    let j = choose|j: int| occurs_at(d, "股價"@, j);
    lemma_occurs_found(d, price_label(), j);
}

/// A figure is the text between its label and the next `；`, `。` or `;` (or the end of
/// the description), with surrounding white space removed: for a description
/// `p + label + v + tail` where the label does not start inside `p`, `v` holds no end
/// mark and `tail` is empty or starts with one, the figure is `v` trimmed.
pub proof fn law_figure_after_label(p: Seq<char>, label: Seq<char>, v: Seq<char>, tail: Seq<char>)
    requires
        forall|k: int| 0 <= k < p.len() ==> !occurs_at(p + label + v + tail, label, k),
        forall|k: int| 0 <= k < v.len() ==> !field_ends().contains(#[trigger] v[k]),
        tail.len() == 0 || field_ends().contains(tail[0]),
    ensures
        extract_spec(p + label + v + tail, label) == Some(trim_spec(v)),
{
    let desc = p + label + v + tail;
    let n = p.len() as int;
    let from = n + label.len();
    assert(desc.subrange(n, from) =~= label);
    lemma_find_from_first(desc, label, 0, n);
    assert forall|j: int| from <= j < from + v.len() implies !field_ends().contains(
        #[trigger] desc[j],
    ) by {
        assert(desc[j] == v[j - from]);
    }
    if tail.len() == 0 {
        crate::text::lemma_find_any_none(desc, field_ends(), from);
        assert(desc.skip(from) =~= v);
    } else {
        assert(desc[from + v.len()] == tail[0]);
        lemma_find_any_first(desc, field_ends(), from, from + v.len());
        assert(desc.subrange(from, from + v.len()) =~= v);
    }
}

proof fn lemma_without_absent(s: Seq<char>, c: char)
    requires
        forall|k: int| 0 <= k < s.len() ==> s[k] != c,
    ensures
        without(s, c) == s,
    decreases s.len(),
{
    reveal_with_fuel(Seq::<_>::filter, 1);
    if s.len() > 0 {
        lemma_without_absent(s.drop_last(), c);
        assert(s.drop_last().push(s.last()) =~= s);
    }
}

proof fn lemma_without_from(s: Seq<char>, c: char)
    ensures
        forall|k: int|
            0 <= k < without(s, c).len() ==> #[trigger] without(s, c)[k] != c && s.contains(
                without(s, c)[k],
            ),
    decreases s.len(),
{
    reveal_with_fuel(Seq::<_>::filter, 1);
    if s.len() > 0 {
        let t = s.drop_last();
        lemma_without_from(t, c);
        assert forall|k: int| 0 <= k < without(s, c).len() implies #[trigger] without(s, c)[k]
            != c && s.contains(without(s, c)[k]) by {
            if k < without(t, c).len() {
                assert(without(s, c)[k] == without(t, c)[k]);
                let m = choose|m: int| 0 <= m < t.len() && t[m] == without(t, c)[k];
                assert(s[m] == t[m]);
            } else {
                assert(without(s, c)[k] == s.last());
                assert(s[s.len() - 1] == s.last());
            }
        }
    }
}

/// The numeric text of a figure holds no `,`, `％` or `%`; a figure without them is only trimmed.
pub proof fn law_numeric_text(s: Seq<char>)
    ensures
        forall|k: int|
            0 <= k < numeric_text_spec(s).len() ==> {
                let c = #[trigger] numeric_text_spec(s)[k];
                c != ',' && c != '％' && c != '%'
            },
        (forall|k: int| 0 <= k < s.len() ==> {
            let c = #[trigger] s[k];
            c != ',' && c != '％' && c != '%'
        }) ==> numeric_text_spec(s) == trim_spec(s),
{
    let a = without(s, ',');
    let b = without(a, '％');
    let c = without(b, '%');
    lemma_without_from(s, ',');
    lemma_without_from(a, '％');
    lemma_without_from(b, '%');
    assert forall|k: int| 0 <= k < a.len() implies a[k] != ',' by {}
    assert forall|k: int| 0 <= k < b.len() implies b[k] != ',' && b[k] != '％' by {
        let m = choose|m: int| 0 <= m < a.len() && a[m] == b[k];
    }
    assert forall|k: int| 0 <= k < c.len() implies c[k] != ',' && c[k] != '％' && c[k] != '%' by {
        let m = choose|m: int| 0 <= m < b.len() && b[m] == c[k];
    }
    crate::text::law_trim_removes_only_outer_white_space(c);
    let (i, j) = choose|i: int, j: int| crate::text::trimmed_at(c, trim_spec(c), i, j);
    assert forall|k: int| 0 <= k < numeric_text_spec(s).len() implies {
        let ch = #[trigger] numeric_text_spec(s)[k];
        ch != ',' && ch != '％' && ch != '%'
    } by {
        assert(numeric_text_spec(s)[k] == c[i + k]);
    }
    if forall|k: int| 0 <= k < s.len() ==> {
        let ch = #[trigger] s[k];
        ch != ',' && ch != '％' && ch != '%'
    } {
        lemma_without_absent(s, ',');
        lemma_without_absent(s, '％');
        lemma_without_absent(s, '%');
    }
}

/// A described page gives a quote exactly when its description has a price figure, and
/// each figure is the numeric text of the text after its own label: `股價` for the
/// price, `昨收` for the previous close, `開盤`, `最高`, `最低` and `漲跌幅` for the
/// open, high, low and change in percent; the volume is the `成交量` figure, else the
/// `總量` figure, with its separators removed.
pub proof fn law_figures_by_label(body: Seq<char>, d: Seq<char>)
    requires
        description_spec(body) == Some(d),
    ensures
        extract_spec(d, "股價"@) is None ==> cmoney_spec(body) is None,
        extract_spec(d, "股價"@) matches Some(x) ==> (cmoney_spec(body) matches Some(f) && {
            &&& f.price == numeric_text_spec(x)
            &&& (extract_spec(d, "昨收"@) matches Some(y) ==> f.prev == Some(numeric_text_spec(y)))
            &&& (extract_spec(d, "昨收"@) is None ==> f.prev is None)
            &&& (extract_spec(d, "開盤"@) matches Some(y) ==> f.open == Some(numeric_text_spec(y)))
            &&& (extract_spec(d, "開盤"@) is None ==> f.open is None)
            &&& (extract_spec(d, "最高"@) matches Some(y) ==> f.high == Some(numeric_text_spec(y)))
            &&& (extract_spec(d, "最高"@) is None ==> f.high is None)
            &&& (extract_spec(d, "最低"@) matches Some(y) ==> f.low == Some(numeric_text_spec(y)))
            &&& (extract_spec(d, "最低"@) is None ==> f.low is None)
            &&& (extract_spec(d, "漲跌幅"@) matches Some(y) ==> f.pct == Some(numeric_text_spec(y)))
            &&& (extract_spec(d, "漲跌幅"@) is None ==> f.pct is None)
            &&& (extract_spec(d, "成交量"@) matches Some(y) ==> f.volume == Some(without(y, ',')))
            &&& (extract_spec(d, "成交量"@) is None ==> (extract_spec(d, "總量"@) matches Some(y)
                ==> f.volume == Some(without(y, ','))))
            &&& (extract_spec(d, "成交量"@) is None && extract_spec(d, "總量"@) is None
                ==> f.volume is None)
        }),
{
}

/// A description read off a page holds no `"`, mentions the price, and is the text
/// right after a `content="` that comes after the `name="description"` marker.
pub proof fn law_description_shape(body: Seq<char>)
    ensures
        description_spec(body) matches Some(d) ==> {
            &&& contains_text(d, price_label())
            &&& forall|k: int| 0 <= k < d.len() ==> d[k] != '"'
            &&& exists|m: int, c: int|
                #![trigger occurs_at(body, meta_marker(), m), occurs_at(body, content_marker(), c)]
                0 <= m <= c && occurs_at(body, meta_marker(), m) && occurs_at(
                    body,
                    content_marker(),
                    c,
                ) && body.subrange(c + content_marker().len(), c + content_marker().len() + d.len())
                    == d
        },
{
    if let Some(d) = description_spec(body) {
        let m = index_of(body, meta_marker()).unwrap();
        crate::text::lemma_find_from(body, meta_marker(), 0);
        let c = find_from(body, content_marker(), m).unwrap();
        crate::text::lemma_find_from(body, content_marker(), m);
        let start = c + content_marker().len();
        let e = find_any_from(body, seq!['"'], start).unwrap();
        crate::text::lemma_find_any_from(body, seq!['"'], start);
        assert forall|k: int| 0 <= k < d.len() implies d[k] != '"' by {
            assert(d[k] == body[start + k]);
            if d[k] == '"' {
                assert(seq!['"'].contains(body[start + k])) by {
                    assert(seq!['"'][0] == body[start + k]);
                }
            }
        }
        assert(occurs_at(body, meta_marker(), m) && occurs_at(body, content_marker(), c));
    }
}

/// Exactly the full-width semicolon `；`, the ideographic full stop `。` and the
/// semicolon `;` end a figure.
pub proof fn law_figure_end_marks(c: char)
    ensures
        field_ends().contains(c) <==> (c == '；' || c == '。' || c == ';'),
{
    if c == '；' {
        assert(field_ends()[0] == c);
    } else if c == '。' {
        assert(field_ends()[1] == c);
    } else if c == ';' {
        assert(field_ends()[2] == c);
    }
}

} // verus!
