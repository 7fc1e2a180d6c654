use bettermediainfo::config::ConfigStreams;
use bettermediainfo::media_info::{MediaInfoGetOption, MediaInfoPropertyKind, MediaInfoSetOption,
    MediaInfoStreamKind};
use bettermediainfo::streams::{BuiltInRegistry, Stream, StreamType};

fn empty_registry() -> BuiltInRegistry {
    BuiltInRegistry::new(&Vec::new())
}

fn default_registry() -> BuiltInRegistry {
    BuiltInRegistry::new(&ConfigStreams::default().general)
}

#[test]
fn scenario_catalogue_blob() {
    let registry = empty_registry();
    let blob = String::from("General\nDuration\nFormat\n\nVideo\nWidth\n\n");
    let streams = Stream::parse(&registry, blob);
    assert_eq!(streams.len(), 3);
    assert_eq!(streams[0].stream_kind, MediaInfoStreamKind::General);
    assert_eq!(streams[0].parameter, "Duration");
    assert_eq!(streams[1].stream_kind, MediaInfoStreamKind::General);
    assert_eq!(streams[1].parameter, "Format");
    assert_eq!(streams[2].stream_kind, MediaInfoStreamKind::Video);
    assert_eq!(streams[2].parameter, "Width");
}

#[test]
fn catalogue_round_trip_preserves_order() {
    let registry = empty_registry();
    let blob = String::from("General\nDuration\nFormat\n\nVideo\nWidth\nHeight\n\n");
    let streams = Stream::parse(&registry, blob);
    assert_eq!(streams.len(), 4);
    // re-serialize the parsed entries into catalogue text
    let mut text = String::new();
    let mut current: Option<MediaInfoStreamKind> = None;
    for stream in &streams {
        if current != Some(stream.stream_kind) {
            if current.is_some() {
                text.push('\n');
            }
            text.push_str(stream.stream_kind.get_name());
            text.push('\n');
            current = Some(stream.stream_kind);
        }
        text.push_str(&stream.parameter);
        text.push('\n');
    }
    text.push('\n');
    let reparsed = Stream::parse(&registry, text);
    assert_eq!(reparsed.len(), streams.len());
    for (a, b) in streams.iter().zip(reparsed.iter()) {
        assert_eq!(a.stream_kind, b.stream_kind);
        assert_eq!(a.parameter, b.parameter);
    }
}

#[test]
fn catalogue_lines_are_trimmed() {
    let registry = empty_registry();
    let blob = String::from("  General  \n  Duration  \n\n");
    let streams = Stream::parse(&registry, blob);
    assert_eq!(streams.len(), 1);
    assert_eq!(streams[0].stream_kind, MediaInfoStreamKind::General);
    assert_eq!(streams[0].parameter, "Duration");
}

#[test]
fn catalogue_carriage_returns_are_trimmed() {
    let registry = empty_registry();
    let blob = String::from("General\r\nDuration\r\n\r\n");
    let streams = Stream::parse(&registry, blob);
    assert_eq!(streams.len(), 1);
    assert_eq!(streams[0].parameter, "Duration");
}

#[test]
fn malformed_unrecognized_kind_at_start() {
    let registry = empty_registry();
    let streams = Stream::parse(&registry, String::from("Generic\nDuration\n\n"));
    assert_eq!(streams.len(), 0);
}

#[test]
fn malformed_unrecognized_kind_after_block() {
    let registry = empty_registry();
    let streams = Stream::parse(
        &registry,
        String::from("General\nDuration\n\nBogus\nWidth\n\nVideo\nHeight\n\n"),
    );
    assert_eq!(streams.len(), 1);
    assert_eq!(streams[0].stream_kind, MediaInfoStreamKind::General);
    assert_eq!(streams[0].parameter, "Duration");
}

#[test]
fn malformed_blank_line_where_kind_expected() {
    let registry = empty_registry();
    let streams = Stream::parse(
        &registry,
        String::from("General\nDuration\n\n\nVideo\nWidth\n\n"),
    );
    assert_eq!(streams.len(), 1);
    assert_eq!(streams[0].parameter, "Duration");
}

#[test]
fn malformed_leading_blank_line() {
    let registry = empty_registry();
    let streams = Stream::parse(&registry, String::from("\nGeneral\nDuration\n\n"));
    assert_eq!(streams.len(), 0);
}

#[test]
fn empty_catalogue_yields_nothing() {
    let registry = empty_registry();
    let streams = Stream::parse(&registry, String::new());
    assert_eq!(streams.len(), 0);
}

#[test]
fn parse_assigns_fixed_resolution_policy() {
    let registry = empty_registry();
    let streams = Stream::parse(&registry, String::from("General\nDuration\n\n"));
    assert_eq!(streams[0].info_kind, MediaInfoPropertyKind::Text);
    assert_eq!(streams[0].search_kind, MediaInfoPropertyKind::Name);
}

#[test]
fn parse_classifies_against_registry() {
    let registry = default_registry();
    let streams = Stream::parse(
        &registry,
        String::from("General\nDuration\nNonDefault\n\nVideo\nDuration\n\n"),
    );
    assert_eq!(streams.len(), 3);
    // Duration is a built-in general parameter
    assert_eq!(streams[0].stream_type, StreamType::Internal);
    // NonDefault is not registered
    assert_eq!(streams[1].stream_type, StreamType::External);
    // Duration under Video is not a built-in: only General has built-ins
    assert_eq!(streams[2].stream_type, StreamType::External);
}

#[test]
fn classify_is_idempotent() {
    let registry = default_registry();
    let first = registry.classify(MediaInfoStreamKind::General, "Duration");
    let second = registry.classify(MediaInfoStreamKind::General, "Duration");
    assert_eq!(first, second);
    assert_eq!(first, StreamType::Internal);
    let third = registry.classify(MediaInfoStreamKind::General, "NonDefault");
    let fourth = registry.classify(MediaInfoStreamKind::General, "NonDefault");
    assert_eq!(third, fourth);
    assert_eq!(third, StreamType::External);
}

#[test]
fn stream_type_predicates() {
    assert!(StreamType::External.is_external());
    assert!(!StreamType::External.is_internal());
    assert!(StreamType::Internal.is_internal());
    assert!(!StreamType::Internal.is_external());
}

#[test]
fn stream_identifier_joins_kind_and_parameter() {
    let stream = Stream::new_built_in(MediaInfoStreamKind::General, String::from("Duration"));
    assert_eq!(stream.get_identifier(), "General/Duration");
    let stream = Stream::new(
        &empty_registry(),
        MediaInfoStreamKind::Video,
        String::from("Width"),
    );
    assert_eq!(stream.get_identifier(), "Video/Width");
}

#[test]
fn registry_len_counts_registered_names() {
    assert_eq!(empty_registry().len(), 0);
    assert_eq!(default_registry().len(), ConfigStreams::default().general.len());
}

#[test]
fn built_in_streams_follow_configuration() {
    let registry = default_registry();
    let built_ins = Stream::get_built_in_streams(&registry, MediaInfoStreamKind::General);
    let expected = ConfigStreams::default().general;
    assert_eq!(built_ins.len(), expected.len());
    for (stream, name) in built_ins.iter().zip(expected.iter()) {
        assert_eq!(stream.stream_kind, MediaInfoStreamKind::General);
        assert_eq!(&stream.parameter, name);
        assert_eq!(stream.stream_type, StreamType::Internal);
    }
}

#[test]
fn stream_kind_names_and_codes() {
    let kinds = MediaInfoStreamKind::values();
    let names = ["General", "Video", "Audio", "Text", "Other", "Image", "Menu", "Max"];
    assert_eq!(kinds.len(), names.len());
    for (i, kind) in kinds.iter().enumerate() {
        assert_eq!(kind.get_name(), names[i]);
        assert_eq!(kind.code(), i as i32);
    }
}

#[test]
fn stream_kind_parse_round_trip() {
    for kind in MediaInfoStreamKind::values() {
        if kind != MediaInfoStreamKind::Max {
            assert_eq!(MediaInfoStreamKind::parse(kind.get_name()), kind);
        }
    }
    assert_eq!(MediaInfoStreamKind::parse("Generic"), MediaInfoStreamKind::Max);
    assert_eq!(MediaInfoStreamKind::parse(""), MediaInfoStreamKind::Max);
    assert_eq!(MediaInfoStreamKind::parse("general"), MediaInfoStreamKind::Max);
}

#[test]
fn property_kind_names_and_codes() {
    let kinds = MediaInfoPropertyKind::values();
    let names = ["Name", "Text", "Measure", "Options", "NameText", "MeasureText", "Info", "HowTo",
        "Max"];
    assert_eq!(kinds.len(), names.len());
    for (i, kind) in kinds.iter().enumerate() {
        assert_eq!(kind.get_name(), names[i]);
        assert_eq!(kind.code(), i as i32);
    }
}

#[test]
fn option_channel_names() {
    assert_eq!(MediaInfoGetOption::CompleteGet.as_str(), "Complete_Get");
    assert_eq!(MediaInfoGetOption::InfoCodecs.as_str(), "Info_Codecs");
    assert_eq!(MediaInfoGetOption::InfoParameters.as_str(), "Info_Parameters");
    assert_eq!(MediaInfoGetOption::InfoVersion.as_str(), "Info_Version");
    assert_eq!(MediaInfoSetOption::CharSet.as_str(), "CharSet");
    assert_eq!(MediaInfoSetOption::Complete.as_str(), "Complete");
    assert_eq!(MediaInfoSetOption::Locale.as_str(), "setlocale_LC_CTYPE");
}
