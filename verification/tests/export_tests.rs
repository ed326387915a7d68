use pixiv_exporter::export::{
    describe_metrics, export_illust_info, illust_gauges, timestamp_from_seconds, GaugeSample, IllustInfo, MetricUnit,
};

fn sample_illust() -> IllustInfo {
    IllustInfo {
        id: 98765432,
        user_id: 12345678,
        user_name: "painter".to_string(),
        kind: "illust".to_string(),
        title: "Sunset".to_string(),
        caption: "An evening sky".to_string(),
        create_date: "2024-01-02 03:04:05 +09:00".to_string(),
        create_timestamp: 1_704_132_245,
        ai_type: 1,
        visible: true,
        is_muted: false,
        total_view: 1500,
        total_bookmarks: 320,
        total_comments: None,
        page_count: 3,
        tags: vec!["sky".to_string(), "風景".to_string()],
    }
}

fn labels(s: &GaugeSample) -> Vec<(String, String)> {
    s.labels.iter().map(|l| (l.key.clone(), l.value.clone())).collect()
}

fn pairs(items: &[(&str, &str)]) -> Vec<(String, String)> {
    items.iter().map(|(k, v)| (k.to_string(), v.to_string())).collect()
}

#[test]
fn counters_use_short_labels_and_exact_values() {
    let samples = illust_gauges(&sample_illust(), 1_704_132_245 + 600);
    assert_eq!(samples.len(), 5 + 2 + 1);
    let short = pairs(&[("id", "98765432"), ("user_id", "12345678")]);
    let expected = [
        ("pixiv_illust_views", 1500i128),
        ("pixiv_illust_bookmarks", 320),
        ("pixiv_illust_comments", 0),
        ("pixiv_illust_uptime", 600),
        ("pixiv_illust_page_count", 3),
    ];
    for (s, (name, value)) in samples.iter().zip(expected.iter()) {
        assert_eq!(s.name, *name);
        assert_eq!(s.value, *value);
        assert_eq!(labels(s), short);
    }
}

#[test]
fn known_comment_count_is_exported() {
    let mut illust = sample_illust();
    illust.total_comments = Some(17);
    let samples = illust_gauges(&illust, 0);
    assert_eq!(samples[2].name, "pixiv_illust_comments");
    assert_eq!(samples[2].value, 17);
}

#[test]
fn uptime_is_negative_for_future_creation() {
    let samples = illust_gauges(&sample_illust(), 1_704_132_245 - 5);
    assert_eq!(samples[3].name, "pixiv_illust_uptime");
    assert_eq!(samples[3].value, -5);
}

#[test]
fn each_tag_gets_a_gauge() {
    let samples = illust_gauges(&sample_illust(), 0);
    assert_eq!(samples[5].name, "pixiv_illust_tag");
    assert_eq!(samples[5].value, 1);
    assert_eq!(labels(&samples[5]), pairs(&[("id", "98765432"), ("user_id", "12345678"), ("tag", "sky")]));
    assert_eq!(samples[6].name, "pixiv_illust_tag");
    assert_eq!(labels(&samples[6]), pairs(&[("id", "98765432"), ("user_id", "12345678"), ("tag", "風景")]));
}

#[test]
fn info_gauge_has_descriptive_labels() {
    let samples = illust_gauges(&sample_illust(), 0);
    let info = samples.last().unwrap();
    assert_eq!(info.name, "pixiv_illust_info");
    assert_eq!(info.value, 1);
    assert_eq!(
        labels(info),
        pairs(&[
            ("id", "98765432"),
            ("user_id", "12345678"),
            ("user_name", "painter"),
            ("type", "illust"),
            ("title", "Sunset"),
            ("caption", "An evening sky"),
            ("create_date", "2024-01-02 03:04:05 +09:00"),
            ("ai_type", "1"),
            ("visible", "true"),
            ("is_muted", "false"),
        ])
    );
}

#[test]
fn negative_ai_type_and_flags_are_rendered() {
    let mut illust = sample_illust();
    illust.ai_type = -2;
    illust.visible = false;
    illust.is_muted = true;
    illust.tags = vec![];
    let samples = illust_gauges(&illust, 0);
    assert_eq!(samples.len(), 6);
    let info = labels(samples.last().unwrap());
    assert_eq!(info[7], ("ai_type".to_string(), "-2".to_string()));
    assert_eq!(info[8], ("visible".to_string(), "false".to_string()));
    assert_eq!(info[9], ("is_muted".to_string(), "true".to_string()));
}

#[test]
fn export_uses_the_current_time() {
    let illust = sample_illust();
    let samples = export_illust_info(&illust).expect("the clock reads after the epoch");
    assert_eq!(samples.len(), 8);
    let now = std::time::SystemTime::now()
        .duration_since(std::time::UNIX_EPOCH)
        .unwrap()
        .as_secs() as i128;
    let uptime = samples[3].value;
    let expected = now - illust.create_timestamp as i128;
    assert!((uptime - expected).abs() <= 5, "uptime {} far from {}", uptime, expected);
}

#[test]
fn metric_descriptions_are_complete() {
    let d = describe_metrics();
    let got: Vec<(String, Option<MetricUnit>, String)> =
        d.into_iter().map(|d| (d.name, d.unit, d.description)).collect();
    let expected = vec![
        ("pixiv_illust_views", Some(MetricUnit::Count), "Total views of a illustration."),
        ("pixiv_illust_bookmarks", Some(MetricUnit::Count), "Total bookmarks of a illustration."),
        ("pixiv_illust_comments", Some(MetricUnit::Count), "Total comments of a illustration."),
        ("pixiv_illust_uptime", Some(MetricUnit::Seconds), "Seconds since the illustration was created."),
        ("pixiv_illust_page_count", Some(MetricUnit::Count), "Total pages of a illustration."),
        ("pixiv_illust_tag", None, "A tag of a illustration."),
        ("pixiv_illust_info", None, "Information of a illustration."),
    ];
    let expected: Vec<(String, Option<MetricUnit>, String)> =
        expected.into_iter().map(|(n, u, t)| (n.to_string(), u, t.to_string())).collect();
    assert_eq!(got, expected);
}

#[test]
fn seconds_become_timestamps_where_they_fit() {
    assert_eq!(timestamp_from_seconds(Some(0)), Some(0));
    assert_eq!(timestamp_from_seconds(Some(1_704_132_245)), Some(1_704_132_245));
    assert_eq!(timestamp_from_seconds(Some(i64::MAX as u64)), Some(i64::MAX));
    assert_eq!(timestamp_from_seconds(Some(i64::MAX as u64 + 1)), None);
    assert_eq!(timestamp_from_seconds(Some(u64::MAX)), None);
    assert_eq!(timestamp_from_seconds(None), None);
}
