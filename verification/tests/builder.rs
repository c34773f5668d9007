//! Tests of the fluent configuration builder.

use log_nonblock::{
    Destination, LevelFilter, NonBlockingLoggerBuilder, Timestamps, DEFAULT_CHANNEL_SIZE,
};

#[test]
fn builder_defaults_match_the_documented_configuration() {
    let options = NonBlockingLoggerBuilder::new().build_options();
    assert_eq!(options.default_level, LevelFilter::Trace);
    assert!(options.module_levels.is_empty());
    assert!(options.colors);
    assert_eq!(options.timestamps, Timestamps::Utc);
    assert_eq!(options.channel_size, DEFAULT_CHANNEL_SIZE);
    assert_eq!(options.destination, Destination::Stdout);
}

#[test]
fn builder_settings_are_reflected_in_the_configuration() {
    let options = NonBlockingLoggerBuilder::new()
        .with_level(LevelFilter::Warn)
        .with_colors(false)
        .with_utc_offset(3600)
        .with_channel_size(42)
        .with_destination(Destination::Stderr)
        .build_options();
    assert_eq!(options.default_level, LevelFilter::Warn);
    assert!(!options.colors);
    assert_eq!(options.timestamps, Timestamps::UtcOffset(3600));
    assert_eq!(options.channel_size, 42);
    assert_eq!(options.destination, Destination::Stderr);
}

#[test]
fn timestamp_modes_can_be_switched_back_and_forth() {
    let options = NonBlockingLoggerBuilder::new()
        .without_timestamps()
        .with_utc_timestamps()
        .build_options();
    assert_eq!(options.timestamps, Timestamps::Utc);
    let options = NonBlockingLoggerBuilder::new()
        .with_utc_offset(-19800)
        .without_timestamps()
        .build_options();
    assert_eq!(options.timestamps, Timestamps::Disabled);
}

#[test]
fn module_overrides_are_kept_sorted_most_specific_first() {
    let options = NonBlockingLoggerBuilder::new()
        .with_module_level(b"a", LevelFilter::Info)
        .with_module_level(b"a::b::c", LevelFilter::Trace)
        .with_module_level(b"a::b", LevelFilter::Debug)
        .build_options();
    let names: Vec<&[u8]> = options.module_levels.iter().map(|m| m.name.as_slice()).collect();
    assert_eq!(names, vec![&b"a::b::c"[..], b"a::b", b"a"]);
}

#[test]
fn overrides_of_equal_length_keep_registration_order() {
    let options = NonBlockingLoggerBuilder::new()
        .with_module_level(b"aa", LevelFilter::Info)
        .with_module_level(b"bb", LevelFilter::Debug)
        .with_module_level(b"c", LevelFilter::Error)
        .build_options();
    let names: Vec<&[u8]> = options.module_levels.iter().map(|m| m.name.as_slice()).collect();
    assert_eq!(names, vec![&b"aa"[..], b"bb", b"c"]);
}
