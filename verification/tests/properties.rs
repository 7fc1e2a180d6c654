use bettermediainfo::controller::{build_property_map, build_stream_counts, get_parameters,
    group_properties, StreamProperty};
use bettermediainfo::media_info::MediaInfoStreamKind;
use bettermediainfo::streams::{BuiltInRegistry, Stream};

fn strings(values: &[&str]) -> Vec<String> {
    values.iter().map(|v| String::from(*v)).collect()
}

fn sample_catalogue() -> Vec<Stream> {
    let registry = BuiltInRegistry::new(&Vec::new());
    Stream::parse(
        &registry,
        String::from("General\nDuration\nFormat\n\nVideo\nWidth\nHeight\n\nAudio\nChannels\n\n"),
    )
}

#[test]
fn empty_values_are_filtered() {
    // the resolver returned "" for X and "v" for Y on the same instance
    let parameters = strings(&["X", "Y"]);
    let values = strings(&["", "v"]);
    let map = build_property_map(&parameters, &values);
    assert_eq!(map.len(), 1);
    assert_eq!(map[0].0, "Y");
    assert_eq!(map[0].1, "v");
    assert!(!map.iter().any(|pair| pair.0 == "X"));
}

#[test]
fn property_map_keeps_query_order() {
    let parameters = strings(&["A", "B", "C", "D"]);
    let values = strings(&["1", "", "3", "4"]);
    let map = build_property_map(&parameters, &values);
    let keys: Vec<&str> = map.iter().map(|pair| pair.0.as_str()).collect();
    assert_eq!(keys, vec!["A", "C", "D"]);
    let vals: Vec<&str> = map.iter().map(|pair| pair.1.as_str()).collect();
    assert_eq!(vals, vec!["1", "3", "4"]);
}

#[test]
fn parameters_are_numbered_in_catalogue_order() {
    let streams = sample_catalogue();
    let parameters = get_parameters(&streams);
    assert_eq!(parameters.len(), 5);
    for (i, parameter) in parameters.iter().enumerate() {
        assert_eq!(parameter.id, i as i32);
        assert_eq!(parameter.stream, streams[i].stream_kind);
        assert_eq!(parameter.property, streams[i].parameter);
    }
    assert_eq!(parameters[0].property, "Duration");
    assert_eq!(parameters[4].property, "Channels");
}

#[test]
fn group_properties_by_first_appearance() {
    let request = vec![
        StreamProperty { stream: MediaInfoStreamKind::Video, property: String::from("Width") },
        StreamProperty { stream: MediaInfoStreamKind::General, property: String::from("Duration") },
        StreamProperty { stream: MediaInfoStreamKind::Video, property: String::from("Height") },
    ];
    let groups = group_properties(Some(request), &sample_catalogue());
    assert_eq!(groups.len(), 2);
    assert_eq!(groups[0].0, MediaInfoStreamKind::Video);
    assert_eq!(groups[0].1, strings(&["Width", "Height"]));
    assert_eq!(groups[1].0, MediaInfoStreamKind::General);
    assert_eq!(groups[1].1, strings(&["Duration"]));
}

#[test]
fn no_selection_means_everything() {
    let groups = group_properties(None, &sample_catalogue());
    assert_eq!(groups.len(), 8);
    let kinds: Vec<MediaInfoStreamKind> = groups.iter().map(|g| g.0).collect();
    assert_eq!(kinds, MediaInfoStreamKind::values());
    assert_eq!(groups[0].1, strings(&["Duration", "Format"]));
    assert_eq!(groups[1].1, strings(&["Width", "Height"]));
    assert_eq!(groups[2].1, strings(&["Channels"]));
    for group in &groups[3..] {
        assert!(group.1.is_empty());
    }
}

#[test]
fn stream_counts_follow_engine_order() {
    let counts: Vec<usize> = vec![1, 2, 1, 0, 0, 0, 0, 0];
    let stream_counts = build_stream_counts(&counts);
    assert_eq!(stream_counts.len(), 8);
    assert_eq!(stream_counts[0].stream, MediaInfoStreamKind::General);
    assert_eq!(stream_counts[0].count, 1);
    assert_eq!(stream_counts[1].stream, MediaInfoStreamKind::Video);
    assert_eq!(stream_counts[1].count, 2);
    assert_eq!(stream_counts[2].stream, MediaInfoStreamKind::Audio);
    assert_eq!(stream_counts[2].count, 1);
    assert_eq!(stream_counts[7].stream, MediaInfoStreamKind::Max);
    assert_eq!(stream_counts[7].count, 0);
}
