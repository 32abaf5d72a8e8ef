use browser_core::metrics::{
    marker_identifiers, max_string_byte_length, truncate_string_for_marker,
    truncate_string_for_marker_to_length, truncate_vector_for_marker, BaseMetricId,
    BooleanMetricMarker, ChildMetricMeta, DistributionMetricMarker, DistributionValues,
    IntLikeMetricMarker, MetricId, MetricMetadata, PingMarker, StringLikeMetricMarker,
    SubMetricId,
};

// Check a series of truncation points (i.e. string lengths), and assert
// that they all produce the same truncated string from the input.
fn check_many(s: &str, arg: impl IntoIterator<Item = usize>, truncated: &str) {
    for len in arg {
        assert_eq!(
            truncate_string_for_marker_to_length(s.to_string(), len),
            truncated,
            "truncate_string_for_marker_to_length({:?}, {:?}) != {:?}",
            len,
            s,
            truncated
        );
    }
}

#[test]
fn truncate_1byte_chars() {
    check_many("jp", [0], "");
    check_many("jp", [1], "j");
    check_many("jp", 2..4, "jp");
}

#[test]
fn truncate_2byte_chars() {
    check_many("ĵƥ", 0..2, "");
    check_many("ĵƥ", 2..4, "ĵ");
    check_many("ĵƥ", 4..6, "ĵƥ");
}

#[test]
fn truncate_3byte_chars() {
    check_many("日本", 0..3, "");
    check_many("日本", 3..6, "日");
    check_many("日本", 6..8, "日本");
}

#[test]
fn truncate_4byte_chars() {
    check_many("🇯🇵", 0..4, "");
    check_many("🇯🇵", 4..8, "🇯");
    check_many("🇯🇵", 8..10, "🇯🇵");
}

// Check a single string against its expected truncated outcome
fn check_one(s: String, truncated: String) {
    assert_eq!(
        truncate_string_for_marker(s.clone()),
        truncated,
        "truncate_string_for_marker({:?}) != {:?}",
        s,
        truncated
    );
}

#[test]
fn full_truncation() {
    // Keep the values in this up to date with the maximal byte length.

    // For each of these tests, we use a padding value to get near to 1024
    // bytes, then add on a variety of further characters that push us up
    // to or over the limit. We then check that we correctly truncated to
    // the correct character or grapheme.
    let pad = |reps: usize| -> String { "-".repeat(reps) };

    // Note: len(jpjpj) = 5
    check_one(pad(1020) + "jpjpj", pad(1020) + "jpjp");

    // Note: len(ĵƥ) = 4
    check_one(pad(1020) + "ĵƥ", pad(1020) + "ĵƥ");
    check_one(pad(1021) + "ĵƥ", pad(1021) + "ĵ");

    // Note: len(日本) = 6
    check_one(pad(1018) + "日本", pad(1018) + "日本");
    check_one(pad(1020) + "日本", pad(1020) + "日");
    check_one(pad(1022) + "日本", pad(1022));

    // Note: len(🇯🇵) = 8, len(🇯) = 4
    check_one(pad(1016) + "🇯🇵", pad(1016) + "🇯🇵");
    check_one(pad(1017) + "🇯🇵", pad(1017) + "🇯");
    check_one(pad(1021) + "🇯🇵", pad(1021) + "");
}

#[test]
fn max_string_byte_length_is_1024() {
    assert_eq!(max_string_byte_length(), 1024);
}

#[test]
fn truncation_keeps_a_prefix_of_whole_characters() {
    let s = "a日b本c🇯🇵d";
    for len in 0..s.len() + 3 {
        let cut = truncate_string_for_marker_to_length(s.to_string(), len);
        assert!(s.starts_with(&cut));
        assert!(cut.len() <= len || cut.len() == s.len());
        // No longer prefix of whole characters fits.
        if cut.len() < s.len() {
            let next = s[cut.len()..].chars().next().unwrap();
            assert!(cut.len() + next.len_utf8() > len);
        }
    }
}

#[test]
fn truncation_of_the_empty_string() {
    assert_eq!(truncate_string_for_marker_to_length(String::new(), 0), "");
    assert_eq!(truncate_string_for_marker_to_length(String::new(), 5), "");
    assert_eq!(truncate_string_for_marker(String::new()), "");
}

#[test]
fn short_vector_is_kept() {
    let v: Vec<u32> = (0..1024).collect();
    assert_eq!(truncate_vector_for_marker(&v), v);
    let empty: Vec<u32> = Vec::new();
    assert_eq!(truncate_vector_for_marker(&empty), empty);
}

#[test]
fn long_vector_keeps_one_less_than_the_limit() {
    let v: Vec<u32> = (0..1025).collect();
    let cut = truncate_vector_for_marker(&v);
    assert_eq!(cut.len(), 1023);
    assert_eq!(cut, v[0..1023].to_vec());
}

#[test]
fn child_metric_meta_identifiers() {
    let meta = ChildMetricMeta::from_name_category_pair(
        BaseMetricId(7),
        "name".to_string(),
        "category".to_string(),
    );
    assert_eq!(meta.id, BaseMetricId(7));
    assert_eq!(meta.name, "name");
    assert_eq!(meta.category, "category");
    assert_eq!(meta.get_identifiers(), ("category", "name", None));
}

#[test]
fn string_marker_is_truncated() {
    let long = "é".repeat(600);
    let marker = StringLikeMetricMarker::<()>::new(MetricId::Id(BaseMetricId(1)), &long);
    assert_eq!(marker.id, MetricId::Id(BaseMetricId(1)));
    assert_eq!(marker.val, "é".repeat(512));
    let owned =
        StringLikeMetricMarker::<()>::new_owned(MetricId::SubId(SubMetricId(2)), long.clone());
    assert_eq!(owned.id, MetricId::SubId(SubMetricId(2)));
    assert_eq!(owned.val, "é".repeat(512));
    let short = StringLikeMetricMarker::<()>::new_owned(
        MetricId::Id(BaseMetricId(3)),
        "short".to_string(),
    );
    assert_eq!(short.val, "short");
}

#[test]
fn other_markers_keep_their_parts() {
    let int = IntLikeMetricMarker::<(), i32>::new(
        MetricId::Id(BaseMetricId(1)),
        Some("label".to_string()),
        -5,
    );
    assert_eq!(int.id, MetricId::Id(BaseMetricId(1)));
    assert_eq!(int.label, Some("label".to_string()));
    assert_eq!(int.val, -5);

    let dist = DistributionMetricMarker::<(), u64>::new(
        MetricId::Id(BaseMetricId(2)),
        None,
        DistributionValues::Samples(vec![1, 2, 3]),
    );
    assert_eq!(dist.id, MetricId::Id(BaseMetricId(2)));
    assert_eq!(dist.label, None);
    assert!(matches!(dist.value, DistributionValues::Samples(ref s) if *s == vec![1, 2, 3]));
    let one = DistributionMetricMarker::<(), u64>::new(
        MetricId::Id(BaseMetricId(2)),
        None,
        DistributionValues::Sample(9),
    );
    assert!(matches!(one.value, DistributionValues::Sample(9)));

    let boolean = BooleanMetricMarker::<()>::new(MetricId::Id(BaseMetricId(3)), None, true);
    assert_eq!(boolean.id, MetricId::Id(BaseMetricId(3)));
    assert_eq!(boolean.label, None);
    assert!(boolean.val);

    let ping = PingMarker::new_for_submit("baseline".to_string(), Some("dirty".to_string()));
    assert_eq!(ping.name, "baseline");
    assert_eq!(ping.reason, Some("dirty".to_string()));
}

fn metadata(name: &str, label: Option<&str>) -> MetricMetadata {
    MetricMetadata {
        category: "cat".to_string(),
        name: name.to_string(),
        label: label.map(|l| l.to_string()),
    }
}

#[test]
fn marker_label_of_the_metadata_comes_first() {
    let ids = marker_identifiers(metadata("a/b", Some("own")), Some("found".to_string()));
    assert_eq!(ids.cat, "cat");
    assert_eq!(ids.id, "a/b");
    assert_eq!(ids.label, Some("own".to_string()));
}

#[test]
fn marker_label_of_the_lookup_comes_second() {
    let ids = marker_identifiers(metadata("a/b", None), Some("found".to_string()));
    assert_eq!(ids.id, "a/b");
    assert_eq!(ids.label, Some("found".to_string()));
}

#[test]
fn marker_label_is_split_from_the_name() {
    let ids = marker_identifiers(metadata("name/label/more", None), None);
    assert_eq!(ids.cat, "cat");
    assert_eq!(ids.id, "name");
    assert_eq!(ids.label, Some("label/more".to_string()));
}

#[test]
fn marker_name_without_slash_has_no_label() {
    let ids = marker_identifiers(metadata("name", None), None);
    assert_eq!(ids.id, "name");
    assert_eq!(ids.label, None);
}
