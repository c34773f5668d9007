//! Tests of line formatting: the wire format, timestamp rendering, the
//! side-channel diagnostic line, and idempotence of formatting.

use log_nonblock::line::{compose_line, error_report_line, format_timestamp_offset, format_timestamp_utc};
use log_nonblock::{ClockParts, Level, LevelFilter, NonBlockingOptions, Timestamps};

fn sample_parts() -> ClockParts {
    ClockParts {
        year: 2026,
        month: 10,
        day: 11,
        hour: 12,
        minute: 34,
        second: 56,
        millisecond: 789,
    }
}

fn plain_options(timestamps: Timestamps) -> NonBlockingOptions {
    NonBlockingOptions {
        default_level: LevelFilter::Trace,
        module_levels: Vec::new(),
        colors: false,
        timestamps,
        channel_size: 16,
        destination: log_nonblock::Destination::Stdout,
    }
}

#[test]
fn utc_timestamp_has_millisecond_precision_and_a_literal_z() {
    let ts = format_timestamp_utc(&sample_parts());
    assert_eq!(ts, b"2026-10-11T12:34:56.789Z".to_vec());
}

#[test]
fn utc_timestamp_pads_every_field_with_zeros() {
    let parts = ClockParts { year: 33, month: 1, day: 2, hour: 3, minute: 4, second: 5, millisecond: 6 };
    assert_eq!(format_timestamp_utc(&parts), b"0033-01-02T03:04:05.006Z".to_vec());
}

#[test]
fn negative_year_carries_a_sign() {
    let parts = ClockParts { year: -44, month: 3, day: 15, hour: 0, minute: 0, second: 0, millisecond: 0 };
    assert_eq!(format_timestamp_utc(&parts), b"-0044-03-15T00:00:00.000Z".to_vec());
}

#[test]
fn offset_timestamp_has_a_mandatory_sign() {
    let parts = sample_parts();
    assert_eq!(
        format_timestamp_offset(&parts, 3600),
        b"2026-10-11T12:34:56.789+01:00".to_vec()
    );
    assert_eq!(
        format_timestamp_offset(&parts, -19800),
        b"2026-10-11T12:34:56.789-05:30".to_vec()
    );
    assert_eq!(
        format_timestamp_offset(&parts, 0),
        b"2026-10-11T12:34:56.789+00:00".to_vec()
    );
}

#[test]
fn line_follows_the_wire_format() {
    let line = compose_line(b"", b"INFO ", b"app::web", b"@worker-1", b"hello there");
    assert_eq!(line, b"INFO  [app::web@worker-1] hello there\r\n".to_vec());
}

#[test]
fn rendered_line_carries_the_timestamp_field_first() {
    let options = plain_options(Timestamps::Utc);
    let line = options.render_line_at(&sample_parts(), Level::Warn, b"db", b"", b"slow query");
    assert_eq!(
        line,
        b"2026-10-11T12:34:56.789Z WARN  [db] slow query\r\n".to_vec()
    );
}

#[test]
fn rendered_line_with_offset_timestamps() {
    let options = plain_options(Timestamps::UtcOffset(-19800));
    let line = options.render_line_at(&sample_parts(), Level::Error, b"db", b"", b"down");
    assert_eq!(
        line,
        b"2026-10-11T12:34:56.789-05:30 ERROR [db] down\r\n".to_vec()
    );
}

#[test]
fn every_level_label_is_padded_to_five_bytes() {
    let options = plain_options(Timestamps::Disabled);
    let parts = sample_parts();
    let expectations: [(Level, &[u8]); 5] = [
        (Level::Error, b"ERROR [t] m\r\n"),
        (Level::Warn, b"WARN  [t] m\r\n"),
        (Level::Info, b"INFO  [t] m\r\n"),
        (Level::Debug, b"DEBUG [t] m\r\n"),
        (Level::Trace, b"TRACE [t] m\r\n"),
    ];
    for (level, expected) in expectations {
        let line = options.render_line_at(&parts, level, b"t", b"", b"m");
        assert_eq!(line, expected.to_vec());
    }
}

#[test]
fn formatting_is_idempotent_up_to_the_timestamp_field() {
    let options = plain_options(Timestamps::Utc);
    let first = options.render_line_at(&sample_parts(), Level::Info, b"app", b"", b"same record");
    let second = options.render_line_at(&sample_parts(), Level::Info, b"app", b"", b"same record");
    // Identical configuration and clock reading: byte-identical lines.
    assert_eq!(first, second);

    let later = ClockParts { second: 57, ..sample_parts() };
    let third = options.render_line_at(&later, Level::Info, b"app", b"", b"same record");
    // A different clock reading changes only the timestamp field.
    let ts_len = b"2026-10-11T12:34:56.789Z ".len();
    assert_ne!(first[..ts_len], third[..ts_len]);
    assert_eq!(first[ts_len..], third[ts_len..]);
}

#[test]
fn colored_label_is_plain_or_wrapped_in_one_ansi_code() {
    let label = log_nonblock::color::level_string(Level::Error, true);
    let plain = b"ERROR".to_vec();
    let mut wrapped: Vec<u8> = b"\x1b[31m".to_vec();
    wrapped.extend_from_slice(&plain);
    wrapped.extend_from_slice(b"\x1b[0m");
    assert!(label == plain || label == wrapped);
}

#[test]
fn colors_off_leaves_the_label_plain() {
    assert_eq!(log_nonblock::color::level_string(Level::Error, false), b"ERROR".to_vec());
    assert_eq!(log_nonblock::color::level_string(Level::Warn, false), b"WARN ".to_vec());
}

#[test]
fn empty_target_falls_back_to_the_module_path() {
    assert_eq!(log_nonblock::logger::effective_target(b"app::web", b"crate::mod"), b"app::web");
    assert_eq!(log_nonblock::logger::effective_target(b"", b"crate::mod"), b"crate::mod");
}

#[test]
fn diagnostic_line_has_the_side_channel_prefix() {
    assert_eq!(
        error_report_line(b"stdout went away"),
        b"[log_nonblock error] stdout went away\n".to_vec()
    );
}

#[test]
fn live_clock_timestamp_has_the_documented_shape() {
    let mut registry = log_nonblock::LoggerRegistry::new();
    let mut logger = log_nonblock::NonBlockingLoggerBuilder::new()
        .with_colors(false)
        .with_utc_timestamps()
        .with_channel_size(4)
        .init(&mut registry)
        .unwrap();
    assert_eq!(
        logger.log(Level::Info, b"t", b"", b"m"),
        log_nonblock::LogOutcome::Enqueued
    );
    let mut worker = log_nonblock::LogWorker::new();
    let mut sink: Vec<u8> = Vec::new();
    logger.drain_into(&mut worker, &mut sink);
    // "YYYY-MM-DDThh:mm:ss.mmmZ INFO  [t] m\r\n"
    assert_eq!(sink.len(), b"2026-10-11T12:34:56.789Z INFO  [t] m\r\n".len());
    assert_eq!(sink[4], b'-');
    assert_eq!(sink[7], b'-');
    assert_eq!(sink[10], b'T');
    assert_eq!(sink[13], b':');
    assert_eq!(sink[16], b':');
    assert_eq!(sink[19], b'.');
    assert_eq!(sink[23], b'Z');
    assert_eq!(sink[24], b' ');
    for i in [0, 1, 2, 3, 5, 6, 8, 9, 11, 12, 14, 15, 17, 18, 20, 21, 22] {
        assert!(sink[i].is_ascii_digit());
    }
}
