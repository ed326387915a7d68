//! The gauge metrics of the exporter: their descriptions, and the samples
//! that one illustration yields.
//!
//! Core counters carry short labels (`id`, `user_id`); the metadata of an
//! illustration goes into `pixiv_illust_info` with richer labels. Recording
//! the samples into the metrics registry is left to the caller.

use vstd::prelude::*;
use std::time::{Duration, SystemTime, UNIX_EPOCH};
use crate::decimal::{decimal, signed_decimal, unsigned_to_string, signed_to_string, bool_to_string};

verus! {

/// The unit a gauge is measured in.
#[derive(Clone, Copy, PartialEq, Eq, Structural, Debug)]
pub enum MetricUnit {
    Count,
    Seconds,
}

/// The description of one gauge metric.
pub struct MetricDescription {
    pub name: String,
    pub unit: Option<MetricUnit>,
    pub description: String,
}

/// One label of a sample: a key and its value.
pub struct Label {
    pub key: String,
    pub value: String,
}

impl View for Label {
    type V = (Seq<char>, Seq<char>);

    open spec fn view(&self) -> (Seq<char>, Seq<char>) {
        (self.key@, self.value@)
    }
}

/// One value to set on a gauge, under a set of labels.
pub struct GaugeSample {
    pub name: String,
    pub labels: Vec<Label>,
    pub value: i128,
}

/// A gauge sample as a mathematical value.
pub struct GaugeView {
    pub name: Seq<char>,
    pub labels: Seq<(Seq<char>, Seq<char>)>,
    pub value: int,
}

impl View for GaugeSample {
    type V = GaugeView;

    open spec fn view(&self) -> GaugeView {
        GaugeView { name: self.name@, labels: self.labels@.map_values(|l: Label| l@), value: self.value as int }
    }
}

/// What the exporter reads of one illustration.
pub struct IllustInfo {
    pub id: u64,
    pub user_id: u64,
    pub user_name: String,
    /// The kind of work (`illust`, `manga`, ...).
    pub kind: String,
    pub title: String,
    pub caption: String,
    /// The creation date as the API client prints it.
    pub create_date: String,
    /// The creation date in seconds since the Unix epoch.
    pub create_timestamp: i64,
    pub ai_type: i32,
    pub visible: bool,
    pub is_muted: bool,
    pub total_view: i64,
    pub total_bookmarks: i64,
    pub total_comments: Option<i32>,
    pub page_count: i32,
    /// The names of the illustration's tags, in order.
    pub tags: Vec<String>,
}

/// The gauge with the given name, labels and value.
pub open spec fn gauge(name: Seq<char>, labels: Seq<(Seq<char>, Seq<char>)>, value: int) -> GaugeView {
    GaugeView { name, labels, value }
}

pub open spec fn bool_text(b: bool) -> Seq<char> {
    if b { "true"@ } else { "false"@ }
}

/// The short labels: the illustration's id and its user's id.
pub open spec fn short_labels(illust: IllustInfo) -> Seq<(Seq<char>, Seq<char>)> {
    seq![("id"@, decimal(illust.id as nat)), ("user_id"@, decimal(illust.user_id as nat))]
}

/// The labels of `pixiv_illust_info`, describing the illustration.
pub open spec fn long_labels(illust: IllustInfo) -> Seq<(Seq<char>, Seq<char>)> {
    seq![
        ("id"@, decimal(illust.id as nat)),
        ("user_id"@, decimal(illust.user_id as nat)),
        ("user_name"@, illust.user_name@),
        ("type"@, illust.kind@),
        ("title"@, illust.title@),
        ("caption"@, illust.caption@),
        ("create_date"@, illust.create_date@),
        ("ai_type"@, signed_decimal(illust.ai_type as int)),
        ("visible"@, bool_text(illust.visible)),
        ("is_muted"@, bool_text(illust.is_muted)),
    ]
}

/// The comment count, where a missing count counts as zero.
pub open spec fn comments_or_zero(c: Option<i32>) -> int {
    match c {
        Some(n) => n as int,
        None => 0,
    }
}

/// The core counters of an illustration at time `now` (seconds since the Unix epoch).
pub open spec fn counter_gauges(illust: IllustInfo, now: int) -> Seq<GaugeView> {
    let short = short_labels(illust);
    seq![
        gauge("pixiv_illust_views"@, short, illust.total_view as int),
        gauge("pixiv_illust_bookmarks"@, short, illust.total_bookmarks as int),
        gauge("pixiv_illust_comments"@, short, comments_or_zero(illust.total_comments)),
        gauge("pixiv_illust_uptime"@, short, now - illust.create_timestamp),
        gauge("pixiv_illust_page_count"@, short, illust.page_count as int),
    ]
}

/// One `pixiv_illust_tag` gauge per tag: the short labels and the tag's name.
pub open spec fn tag_gauges(illust: IllustInfo) -> Seq<GaugeView> {
    illust.tags@.map_values(|t: String| gauge("pixiv_illust_tag"@, short_labels(illust).push(("tag"@, t@)), 1))
}

/// All gauge samples of an illustration at time `now`, in the order they are set.
pub open spec fn illust_gauge_views(illust: IllustInfo, now: int) -> Seq<GaugeView> {
    counter_gauges(illust, now) + tag_gauges(illust) + seq![gauge("pixiv_illust_info"@, long_labels(illust), 1)]
}

fn label(key: &str, value: String) -> (l: Label)
    ensures
        l@ == (key@, value@),
{
    Label { key: key.to_string(), value }
}

fn short_label_vec(illust: &IllustInfo) -> (labels: Vec<Label>)
    ensures
        labels@.map_values(|l: Label| l@) == short_labels(*illust),
{
    let mut labels: Vec<Label> = Vec::new();
    labels.push(label("id", unsigned_to_string(illust.id as u128)));
    labels.push(label("user_id", unsigned_to_string(illust.user_id as u128)));
    assert(labels@.map_values(|l: Label| l@) =~= short_labels(*illust));
    labels
}

fn long_label_vec(illust: &IllustInfo) -> (labels: Vec<Label>)
    ensures
        labels@.map_values(|l: Label| l@) == long_labels(*illust),
{
    let mut labels: Vec<Label> = Vec::new();
    labels.push(label("id", unsigned_to_string(illust.id as u128)));
    labels.push(label("user_id", unsigned_to_string(illust.user_id as u128)));
    labels.push(label("user_name", illust.user_name.clone()));
    labels.push(label("type", illust.kind.clone()));
    labels.push(label("title", illust.title.clone()));
    labels.push(label("caption", illust.caption.clone()));
    labels.push(label("create_date", illust.create_date.clone()));
    labels.push(label("ai_type", signed_to_string(illust.ai_type as i128)));
    labels.push(label("visible", bool_to_string(illust.visible)));
    labels.push(label("is_muted", bool_to_string(illust.is_muted)));
    assert(labels@.map_values(|l: Label| l@) =~= long_labels(*illust));
    labels
}

fn sample(name: &str, labels: Vec<Label>, value: i128) -> (s: GaugeSample)
    ensures
        s@ == gauge(name@, labels@.map_values(|l: Label| l@), value as int),
{
    GaugeSample { name: name.to_string(), labels, value }
}

/// The gauge samples of one illustration at time `now` (seconds since the
/// Unix epoch): views, bookmarks, comments (zero when unknown), uptime and
/// page count under the short labels; one tag gauge per tag; and the
/// information gauge with the descriptive labels.
pub fn illust_gauges(illust: &IllustInfo, now: i64) -> (samples: Vec<GaugeSample>)
    ensures
        samples@.map_values(|s: GaugeSample| s@) == illust_gauge_views(*illust, now as int),
{
    let comments: i128 = match illust.total_comments {
        Some(n) => n as i128,
        None => 0,
    };
    let uptime: i128 = now as i128 - illust.create_timestamp as i128;
    let mut samples: Vec<GaugeSample> = Vec::new();
    samples.push(sample("pixiv_illust_views", short_label_vec(illust), illust.total_view as i128));
    samples.push(sample("pixiv_illust_bookmarks", short_label_vec(illust), illust.total_bookmarks as i128));
    samples.push(sample("pixiv_illust_comments", short_label_vec(illust), comments));
    samples.push(sample("pixiv_illust_uptime", short_label_vec(illust), uptime));
    samples.push(sample("pixiv_illust_page_count", short_label_vec(illust), illust.page_count as i128));
    assert(samples@.map_values(|s: GaugeSample| s@) =~= counter_gauges(*illust, now as int));

    let n = illust.tags.len();
    for i in 0..n
        invariant
            n == illust.tags.len(),
            samples@.map_values(|s: GaugeSample| s@)
                =~= counter_gauges(*illust, now as int) + tag_gauges(*illust).take(i as int),
    {
        let mut labels = short_label_vec(illust);
        let ghost short_labels_vec = labels@;
        let tag = label("tag", illust.tags[i].clone());
        labels.push(tag);
        proof {
            assert(labels@ == short_labels_vec.push(tag));
            assert(labels@.map_values(|l: Label| l@) =~= short_labels_vec.map_values(|l: Label| l@).push(tag@));
        }
        let ghost before = samples@;
        let s = sample("pixiv_illust_tag", labels, 1);
        samples.push(s);
        proof {
            assert(samples@ == before.push(s));
            assert(samples@.map_values(|s: GaugeSample| s@) =~= before.map_values(|s: GaugeSample| s@).push(s@));
            assert(tag_gauges(*illust).take(i + 1) =~= tag_gauges(*illust).take(i as int).push(tag_gauges(*illust)[i as int]));
        }
    }
    assert(tag_gauges(*illust).take(n as int) =~= tag_gauges(*illust));
    samples.push(sample("pixiv_illust_info", long_label_vec(illust), 1));
    assert(samples@.map_values(|s: GaugeSample| s@) =~= illust_gauge_views(*illust, now as int));
    samples
}

#[verifier::external_type_specification]
#[verifier::external_body]
pub struct ExSystemTime(SystemTime);

/// `std::time::SystemTime::now`: the clock's reading. Nothing is stated of it.
#[verifier::external_body]
fn system_time_now() -> (t: SystemTime) {
    SystemTime::now()
}

/// `SystemTime::duration_since(UNIX_EPOCH)`: how long after the Unix epoch
/// the reading lies, or `None` where std reports the reading as earlier than
/// the epoch. The reading is opaque here, so nothing is stated of the value.
#[verifier::external_body]
fn duration_since_epoch(t: &SystemTime) -> (d: Option<Duration>) {
    t.duration_since(UNIX_EPOCH).ok()
}

/// `Duration::as_secs`: the whole seconds of a duration. The duration is
/// opaque here, so nothing is stated of the value.
#[verifier::external_body]
fn whole_seconds(d: &Duration) -> (secs: u64) {
    d.as_secs()
}

/// A count of whole seconds since the Unix epoch as a signed timestamp:
/// the same number where it fits in an `i64`, `None` where it does not or
/// where there is no count.
pub fn timestamp_from_seconds(secs: Option<u64>) -> (timestamp: Option<i64>)
    ensures
        timestamp == (match secs {
            Some(n) => if n <= i64::MAX { Some(n as i64) } else { None },
            None => None,
        }),
{
    match secs {
        Some(n) => {
            if n <= i64::MAX as u64 {
                Some(n as i64)
            } else {
                None
            }
        },
        None => None,
    }
}

/// The current time in whole seconds since the Unix epoch, or `None` when
/// the clock reads before the epoch or beyond what an `i64` holds.
fn unix_now() -> (now: Option<i64>)
    ensures
        now matches Some(n) ==> n >= 0,
{
    let t = system_time_now();
    let secs = match duration_since_epoch(&t) {
        Some(d) => Some(whole_seconds(&d)),
        None => None,
    };
    timestamp_from_seconds(secs)
}

/// The gauge samples of one illustration as of now: those of
/// [`illust_gauges`] at the current time, or `None` when the clock cannot
/// be read as seconds since the Unix epoch.
pub fn export_illust_info(illust: &IllustInfo) -> (samples: Option<Vec<GaugeSample>>)
    ensures
        samples matches Some(samples) ==> exists|now: i64|
            now >= 0 && samples@.map_values(|s: GaugeSample| s@) == illust_gauge_views(*illust, now as int),
{
    match unix_now() {
        Some(now) => Some(illust_gauges(illust, now)),
        None => None,
    }
}

fn description(name: &str, unit: Option<MetricUnit>, text: &str) -> (d: MetricDescription)
    ensures
        d.name@ == name@,
        d.unit == unit,
        d.description@ == text@,
{
    MetricDescription { name: name.to_string(), unit, description: text.to_string() }
}

/// The description of a gauge as a mathematical value.
pub open spec fn description_view(d: MetricDescription) -> (Seq<char>, Option<MetricUnit>, Seq<char>) {
    (d.name@, d.unit, d.description@)
}

/// The descriptions of all gauges the exporter emits, in registration order.
pub open spec fn metric_descriptions() -> Seq<(Seq<char>, Option<MetricUnit>, Seq<char>)> {
    seq![
        ("pixiv_illust_views"@, Some(MetricUnit::Count), "Total views of a illustration."@),
        ("pixiv_illust_bookmarks"@, Some(MetricUnit::Count), "Total bookmarks of a illustration."@),
        ("pixiv_illust_comments"@, Some(MetricUnit::Count), "Total comments of a illustration."@),
        ("pixiv_illust_uptime"@, Some(MetricUnit::Seconds), "Seconds since the illustration was created."@),
        ("pixiv_illust_page_count"@, Some(MetricUnit::Count), "Total pages of a illustration."@),
        ("pixiv_illust_tag"@, None, "A tag of a illustration."@),
        ("pixiv_illust_info"@, None, "Information of a illustration."@),
    ]
}

/// The descriptions of all gauge metrics emitted by the exporter.
pub fn describe_metrics() -> (descriptions: Vec<MetricDescription>)
    ensures
        descriptions@.map_values(|d: MetricDescription| description_view(d)) == metric_descriptions(),
{
    let mut d: Vec<MetricDescription> = Vec::new();
    d.push(description("pixiv_illust_views", Some(MetricUnit::Count), "Total views of a illustration."));
    d.push(description("pixiv_illust_bookmarks", Some(MetricUnit::Count), "Total bookmarks of a illustration."));
    d.push(description("pixiv_illust_comments", Some(MetricUnit::Count), "Total comments of a illustration."));
    d.push(description("pixiv_illust_uptime", Some(MetricUnit::Seconds), "Seconds since the illustration was created."));
    d.push(description("pixiv_illust_page_count", Some(MetricUnit::Count), "Total pages of a illustration."));
    d.push(description("pixiv_illust_tag", None, "A tag of a illustration."));
    d.push(description("pixiv_illust_info", None, "Information of a illustration."));
    assert(d@.map_values(|d: MetricDescription| description_view(d)) =~= metric_descriptions());
    d
}

/// Every tag gets a gauge of its own, in tag order, right after the five
/// counters: named `pixiv_illust_tag`, set to 1, labelled with the
/// illustration's id, its user's id and the tag's name. The samples are the
/// five counters, one per tag, and the information gauge.
pub proof fn lemma_tag_gauges_are_one(illust: IllustInfo, now: int)
    ensures
        illust_gauge_views(illust, now).len() == 6 + illust.tags.len(),
        forall|i: int| #![trigger illust.tags@[i]] 0 <= i < illust.tags.len() ==>
            illust_gauge_views(illust, now)[5 + i] == (GaugeView {
                name: "pixiv_illust_tag"@,
                labels: seq![
                    ("id"@, decimal(illust.id as nat)),
                    ("user_id"@, decimal(illust.user_id as nat)),
                    ("tag"@, illust.tags@[i]@),
                ],
                value: 1,
            }),
        illust_gauge_views(illust, now)[5 + illust.tags.len()].name == "pixiv_illust_info"@,
        illust_gauge_views(illust, now)[5 + illust.tags.len()].value == 1,
{
    let v = illust_gauge_views(illust, now);
    assert forall|i: int| #![trigger illust.tags@[i]] 0 <= i < illust.tags.len() implies
        v[5 + i] == (GaugeView {
            name: "pixiv_illust_tag"@,
            labels: seq![
                ("id"@, decimal(illust.id as nat)),
                ("user_id"@, decimal(illust.user_id as nat)),
                ("tag"@, illust.tags@[i]@),
            ],
            value: 1,
        }) by {
        assert(v[5 + i] == tag_gauges(illust)[i]);
        assert(short_labels(illust).push(("tag"@, illust.tags@[i]@)) =~= seq![
            ("id"@, decimal(illust.id as nat)),
            ("user_id"@, decimal(illust.user_id as nat)),
            ("tag"@, illust.tags@[i]@),
        ]);
    }
}

/// Two readings of one illustration at different times differ only in the
/// uptime gauge, and there by exactly the time between them; the uptime is
/// the time elapsed since the illustration was created.
pub proof fn lemma_only_uptime_follows_time(illust: IllustInfo, now1: int, now2: int)
    ensures
        illust_gauge_views(illust, now1).len() == illust_gauge_views(illust, now2).len(),
        forall|k: int| 0 <= k < illust_gauge_views(illust, now1).len() && k != 3 ==>
            #[trigger] illust_gauge_views(illust, now1)[k] == illust_gauge_views(illust, now2)[k],
        illust_gauge_views(illust, now1)[3].name == "pixiv_illust_uptime"@,
        illust_gauge_views(illust, now1)[3].value == now1 - illust.create_timestamp,
        illust_gauge_views(illust, now2)[3].value - illust_gauge_views(illust, now1)[3].value == now2 - now1,
{
}

/// The comments gauge reads the comment count, and zero when the count is
/// unknown.
pub proof fn lemma_unknown_comments_read_zero(illust: IllustInfo, now: int)
    ensures
        illust_gauge_views(illust, now)[2].name == "pixiv_illust_comments"@,
        illust.total_comments is None ==> illust_gauge_views(illust, now)[2].value == 0,
        illust.total_comments matches Some(n) ==> illust_gauge_views(illust, now)[2].value == n,
{
}

} // verus!
