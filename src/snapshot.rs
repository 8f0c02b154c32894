//! One scrape of a node's metrics, held as plain values: every sample with
//! its metric name, its labels and its value rounded to an integer.
use vstd::prelude::*;

verus! {

/// The value of a sample, by metric type. Counters, gauges and untyped
/// samples carry one number; histograms and summaries carry several and are
/// never read as a single value.
#[derive(Clone, Copy, Debug, PartialEq, Eq, Structural)]
pub enum SampleValue {
    Counter(u64),
    Gauge(u64),
    Untyped(u64),
    Histogram,
    Summary,
}

/// One labelled sample of a scrape.
#[derive(Clone, Debug)]
pub struct Sample {
    pub metric: String,
    /// Label pairs `(key, value)`; a key is looked up by its first pair.
    pub labels: Vec<(String, String)>,
    pub value: SampleValue,
}

/// The samples of one scrape, in the order the node exposed them.
#[derive(Clone, Debug)]
pub struct Snapshot {
    pub samples: Vec<Sample>,
}

pub struct SampleView {
    pub metric: Seq<char>,
    pub labels: Seq<(Seq<char>, Seq<char>)>,
    pub value: SampleValue,
}

impl View for Sample {
    type V = SampleView;

    open spec fn view(&self) -> SampleView {
        SampleView {
            metric: self.metric@,
            labels: self.labels@.map_values(|p: (String, String)| (p.0@, p.1@)),
            value: self.value,
        }
    }
}

impl View for Snapshot {
    type V = Seq<SampleView>;

    open spec fn view(&self) -> Seq<SampleView> {
        self.samples@.map_values(|s: Sample| s@)
    }
}

/// The value of the first label pair whose key is `key`.
pub open spec fn label_of(labels: Seq<(Seq<char>, Seq<char>)>, key: Seq<char>) -> Option<Seq<char>>
    decreases labels.len(),
{
    if labels.len() == 0 {
        None
    } else if labels[0].0 == key {
        Some(labels[0].1)
    } else {
        label_of(labels.drop_first(), key)
    }
}

/// The single number a sample value carries, if it carries one.
pub open spec fn reading(v: SampleValue) -> Option<u64> {
    match v {
        SampleValue::Counter(x) => Some(x),
        SampleValue::Gauge(x) => Some(x),
        SampleValue::Untyped(x) => Some(x),
        _ => None,
    }
}

/// A sample is read for a query when it has the metric's name, the label
/// `key` set to `value`, and a single number.
pub open spec fn answers(s: SampleView, name: Seq<char>, key: Seq<char>, value: Seq<char>) -> bool {
    &&& s.metric == name
    &&& label_of(s.labels, key) == Some(value)
    &&& reading(s.value) is Some
}

/// The reading of the first sample that answers the query.
pub open spec fn metric_value(
    samples: Seq<SampleView>,
    name: Seq<char>,
    key: Seq<char>,
    value: Seq<char>,
) -> Option<u64>
    decreases samples.len(),
{
    if samples.len() == 0 {
        None
    } else if answers(samples[0], name, key, value) {
        reading(samples[0].value)
    } else {
        metric_value(samples.drop_first(), name, key, value)
    }
}

fn find_label<'a>(labels: &'a Vec<(String, String)>, key: &String) -> (r: Option<&'a String>)
    ensures
        label_of(labels@.map_values(|p: (String, String)| (p.0@, p.1@)), key@) == match r {
            Some(v) => Some(v@),
            None => None::<Seq<char>>,
        },
{
    let ghost all = labels@.map_values(|p: (String, String)| (p.0@, p.1@));
    let mut i: usize = 0;
    assert(all.skip(0) =~= all);
    while i < labels.len()
        invariant
            i <= labels@.len(),
            all == labels@.map_values(|p: (String, String)| (p.0@, p.1@)),
            label_of(all, key@) == label_of(all.skip(i as int), key@),
        decreases labels@.len() - i,
    {
        assert(all.skip(i as int).drop_first() =~= all.skip(i + 1));
        if labels[i].0 == *key {
            return Some(&labels[i].1);
        }
        i = i + 1;
    }
    None
}

/// The value of the sample of `metrics` named `metric_name` whose label
/// `label_key` is `label_value`; the first such sample that carries a single
/// number decides.
pub fn get_metric_value(
    metrics: &Snapshot,
    metric_name: &str,
    label_key: &str,
    label_value: &str,
) -> (r: Option<u64>)
    ensures
        r == metric_value(metrics@, metric_name@, label_key@, label_value@),
{
    let name = metric_name.to_owned();
    let key = label_key.to_owned();
    let wanted = label_value.to_owned();
    let samples = &metrics.samples;
    let mut i: usize = 0;
    assert(metrics@.skip(0) =~= metrics@);
    while i < samples.len()
        invariant
            i <= samples@.len(),
            metrics@ == samples@.map_values(|s: Sample| s@),
            name@ == metric_name@,
            key@ == label_key@,
            wanted@ == label_value@,
            metric_value(metrics@, name@, key@, wanted@) == metric_value(
                metrics@.skip(i as int),
                name@,
                key@,
                wanted@,
            ),
        decreases samples@.len() - i,
    {
        assert(metrics@.skip(i as int).drop_first() =~= metrics@.skip(i + 1));
        let s = &samples[i];
        if s.metric == name {
            if let Some(v) = find_label(&s.labels, &key) {
                if *v == wanted {
                    match s.value {
                        SampleValue::Counter(x) => return Some(x),
                        SampleValue::Gauge(x) => return Some(x),
                        SampleValue::Untyped(x) => return Some(x),
                        _ => {},
                    }
                }
            }
        }
        i = i + 1;
    }
    None
}

} // verus!
