//! Snapshot rendering: a structured textual view of every registered metric.
//!
//! The backend never interprets the bit patterns that gauges and histograms
//! carry, so their floating-point texts are handed in by the caller, one per
//! gauge and one per visible histogram observation; counter values are
//! rendered here in decimal. A histogram displays at most its first five
//! observations and marks the truncation when more exist — the bound applies
//! to display only, never to storage.

use vstd::prelude::*;
use vstd::string::StringExecFns;

use crate::recorder::Recorder;

verus! {

/// How many observations of a histogram with `total` observations are
/// displayed: at most the first five.
pub open spec fn visible_count(total: nat) -> nat {
    if total > 5 {
        5
    } else {
        total
    }
}

/// The text of one decimal digit.
pub open spec fn digit_chars(d: int) -> Seq<char> {
    if d == 0 {
        "0"@
    } else if d == 1 {
        "1"@
    } else if d == 2 {
        "2"@
    } else if d == 3 {
        "3"@
    } else if d == 4 {
        "4"@
    } else if d == 5 {
        "5"@
    } else if d == 6 {
        "6"@
    } else if d == 7 {
        "7"@
    } else if d == 8 {
        "8"@
    } else {
        "9"@
    }
}

/// The decimal text of an unsigned value, most significant digit first.
pub open spec fn dec_chars(v: nat) -> Seq<char>
    decreases v,
{
    if v < 10 {
        digit_chars(v as int)
    } else {
        dec_chars(v / 10) + digit_chars((v % 10) as int)
    }
}

/// The given texts in order, separated by `sep`.
pub open spec fn joined(items: Seq<Seq<char>>, sep: Seq<char>) -> Seq<char>
    decreases items.len(),
{
    if items.len() == 0 {
        Seq::empty()
    } else if items.len() == 1 {
        items[0]
    } else {
        joined(items.drop_last(), sep) + sep + items.last()
    }
}

/// One `"name": value` pair of the snapshot.
pub open spec fn entry_text(name: Seq<char>, value: Seq<char>) -> Seq<char> {
    "\""@ + name + "\": "@ + value
}

/// The display of one histogram: the given observation texts, bracketed and
/// comma-separated, followed by the truncation marker exactly when more
/// observations exist than are displayed.
pub open spec fn histogram_text(texts: Seq<Seq<char>>, total: nat) -> Seq<char> {
    "["@ + joined(texts, ", "@) + "]"@ + if total > 5 {
        " and more ... "@
    } else {
        Seq::<char>::empty()
    }
}

/// The counter section: each counter as a `"name": value` pair, the value in
/// decimal.
pub open spec fn counter_entries(cs: Seq<(Seq<char>, u64)>) -> Seq<Seq<char>> {
    Seq::new(cs.len(), |i: int| entry_text(cs[i].0, dec_chars(cs[i].1 as nat)))
}

/// The gauge section: each gauge as a `"name": value` pair, the value text
/// given by the caller.
pub open spec fn gauge_entries(gs: Seq<(Seq<char>, u64)>, texts: Seq<Seq<char>>) -> Seq<
    Seq<char>,
> {
    Seq::new(gs.len(), |i: int| entry_text(gs[i].0, texts[i]))
}

/// The histogram section: each histogram as a `"name": display` pair, the
/// observation texts given by the caller.
pub open spec fn histogram_entries(hs: Seq<(Seq<char>, Seq<u64>)>, texts: Seq<Seq<Seq<char>>>) -> Seq<
    Seq<char>,
> {
    Seq::new(hs.len(), |i: int| entry_text(hs[i].0, histogram_text(texts[i], hs[i].1.len())))
}

/// The whole snapshot: the three sections in a fixed order, each rendered as
/// a braced, comma-separated list of `"name": value` pairs.
pub open spec fn snapshot_text(
    cs: Seq<(Seq<char>, u64)>,
    gs: Seq<(Seq<char>, u64)>,
    gauge_texts: Seq<Seq<char>>,
    hs: Seq<(Seq<char>, Seq<u64>)>,
    histogram_texts: Seq<Seq<Seq<char>>>,
) -> Seq<char> {
    "Recorder { counters: {"@ + joined(counter_entries(cs), ", "@) + "}, gauges: {"@ + joined(
        gauge_entries(gs, gauge_texts),
        ", "@,
    ) + "}, histograms: {"@ + joined(histogram_entries(hs, histogram_texts), ", "@) + "} }"@
}

/// Appending one more text to a joined list appends the separator (when the
/// list was not empty) and the text.
pub proof fn lemma_joined_push(items: Seq<Seq<char>>, x: Seq<char>, sep: Seq<char>)
    ensures
        items.len() == 0 ==> joined(items.push(x), sep) == x,
        items.len() > 0 ==> joined(items.push(x), sep) == joined(items, sep) + sep + x,
{
    if items.len() == 0 {
        assert(items.push(x)[0] == x);
    } else {
        assert(items.push(x).drop_last() =~= items);
        assert(items.push(x).last() == x);
    }
}

fn digit_str(d: u64) -> (r: &'static str)
    requires
        d < 10,
    ensures
        r@ == digit_chars(d as int),
{
    if d == 0 {
        "0"
    } else if d == 1 {
        "1"
    } else if d == 2 {
        "2"
    } else if d == 3 {
        "3"
    } else if d == 4 {
        "4"
    } else if d == 5 {
        "5"
    } else if d == 6 {
        "6"
    } else if d == 7 {
        "7"
    } else if d == 8 {
        "8"
    } else {
        "9"
    }
}

/// The decimal text of a counter value.
pub fn render_u64(v: u64) -> (r: String)
    ensures
        r@ == dec_chars(v as nat),
    decreases v,
{
    if v < 10 {
        digit_str(v).to_owned()
    } else {
        let mut r = render_u64(v / 10);
        r.append(digit_str(v % 10));
        r
    }
}

/// The given texts in order, separated by `sep`.
pub fn join_texts(items: &Vec<String>, sep: &str) -> (r: String)
    ensures
        r@ == joined(items.deep_view(), sep@),
{
    let mut r = String::new();
    let mut i: usize = 0;
    while i < items.len()
        invariant
            i <= items@.len(),
            r@ == joined(items.deep_view().take(i as int), sep@),
        decreases items@.len() - i,
    {
        if i > 0 {
            r.append(sep);
        }
        r.append(items[i].as_str());
        proof {
            let pre = items.deep_view().take(i as int);
            lemma_joined_push(pre, items.deep_view()[i as int], sep@);
            assert(items.deep_view().take(i as int + 1) =~= pre.push(items.deep_view()[i as int]));
        }
        i += 1;
    }
    proof {
        assert(items.deep_view().take(items@.len() as int) =~= items.deep_view());
    }
    r
}

/// The observations of a histogram that the snapshot displays: at most the
/// first five, in recording order.
pub fn histogram_visible(values: &Vec<u64>) -> (shown: Vec<u64>)
    ensures
        shown@ == values@.take(visible_count(values@.len()) as int),
{
    let n = if values.len() > 5 {
        5
    } else {
        values.len()
    };
    let mut shown: Vec<u64> = Vec::new();
    let mut i: usize = 0;
    while i < n
        invariant
            n == visible_count(values@.len()),
            i <= n,
            shown@ == values@.take(i as int),
        decreases n - i,
    {
        shown.push(values[i]);
        proof {
            assert(values@.take(i as int + 1) =~= values@.take(i as int).push(values@[i as int]));
        }
        i += 1;
    }
    shown
}

/// One `"name": value` pair.
fn render_entry(name: &String, value_text: &str) -> (r: String)
    ensures
        r@ == entry_text(name@, value_text@),
{
    let mut r = "\"".to_owned();
    r.append(name.as_str());
    r.append("\": ");
    r.append(value_text);
    r
}

/// The display of one histogram with `total` recorded observations, of which
/// the given texts describe the displayed prefix: the truncation marker
/// appears exactly when `total` exceeds the display bound.
pub fn render_histogram(texts: &Vec<String>, total: usize) -> (r: String)
    ensures
        r@ == histogram_text(texts.deep_view(), total as nat),
{
    let mut r = "[".to_owned();
    r.append(join_texts(texts, ", ").as_str());
    r.append("]");
    if total > 5 {
        r.append(" and more ... ");
    }
    r
}

/// The full snapshot of a backend. The caller supplies the text of each
/// gauge value and of each displayed histogram observation (the backend only
/// carries their bit patterns); counter values are rendered in decimal here.
pub fn render_snapshot(
    rec: &Recorder,
    gauge_texts: &Vec<String>,
    histogram_texts: &Vec<Vec<String>>,
) -> (r: String)
    requires
        rec.wf(),
        gauge_texts@.len() == rec.gauges().len(),
        histogram_texts@.len() == rec.histograms().len(),
        forall|i: int|
            0 <= i < histogram_texts@.len() ==> (#[trigger] histogram_texts@[i])@.len()
                == visible_count(rec.histograms()[i].1.len()),
    ensures
        r@ == snapshot_text(
            rec.counters(),
            rec.gauges(),
            gauge_texts.deep_view(),
            rec.histograms(),
            histogram_texts.deep_view(),
        ),
{
    let mut counter_items: Vec<String> = Vec::new();
    let n = rec.counter_count();
    let mut i: usize = 0;
    while i < n
        invariant
            rec.wf(),
            n == rec.counters().len(),
            i <= n,
            counter_items@.len() == i,
            counter_items.deep_view() == counter_entries(rec.counters()).take(i as int),
        decreases n - i,
    {
        let value = render_u64(rec.counter_value(i));
        counter_items.push(render_entry(rec.counter_name(i), value.as_str()));
        proof {
            assert(counter_items.deep_view() =~= counter_entries(rec.counters()).take(
                i as int + 1,
            ));
        }
        i += 1;
    }
    proof {
        assert(counter_entries(rec.counters()).take(n as int) =~= counter_entries(rec.counters()));
    }

    let mut gauge_items: Vec<String> = Vec::new();
    let g = rec.gauge_count();
    let mut i: usize = 0;
    while i < g
        invariant
            rec.wf(),
            g == rec.gauges().len(),
            gauge_texts@.len() == rec.gauges().len(),
            i <= g,
            gauge_items@.len() == i,
            gauge_items.deep_view() == gauge_entries(
                rec.gauges(),
                gauge_texts.deep_view(),
            ).take(i as int),
        decreases g - i,
    {
        gauge_items.push(render_entry(rec.gauge_name(i), gauge_texts[i].as_str()));
        proof {
            assert(gauge_items.deep_view() =~= gauge_entries(
                rec.gauges(),
                gauge_texts.deep_view(),
            ).take(i as int + 1));
        }
        i += 1;
    }
    proof {
        assert(gauge_entries(rec.gauges(), gauge_texts.deep_view()).take(g as int)
            =~= gauge_entries(rec.gauges(), gauge_texts.deep_view()));
    }

    let mut histogram_items: Vec<String> = Vec::new();
    let k = rec.histogram_count();
    let mut i: usize = 0;
    while i < k
        invariant
            rec.wf(),
            k == rec.histograms().len(),
            histogram_texts@.len() == rec.histograms().len(),
            i <= k,
            histogram_items@.len() == i,
            histogram_items.deep_view() == histogram_entries(
                rec.histograms(),
                histogram_texts.deep_view(),
            ).take(i as int),
        decreases k - i,
    {
        let display = render_histogram(&histogram_texts[i], rec.histogram_len(i));
        histogram_items.push(render_entry(rec.histogram_name(i), display.as_str()));
        proof {
            assert(histogram_items.deep_view() =~= histogram_entries(
                rec.histograms(),
                histogram_texts.deep_view(),
            ).take(i as int + 1));
        }
        i += 1;
    }
    proof {
        assert(histogram_entries(rec.histograms(), histogram_texts.deep_view()).take(k as int)
            =~= histogram_entries(rec.histograms(), histogram_texts.deep_view()));
    }

    let mut out = "Recorder { counters: {".to_owned();
    out.append(join_texts(&counter_items, ", ").as_str());
    out.append("}, gauges: {");
    out.append(join_texts(&gauge_items, ", ").as_str());
    out.append("}, histograms: {");
    out.append(join_texts(&histogram_items, ", ").as_str());
    out.append("} }");
    out
}

} // verus!

