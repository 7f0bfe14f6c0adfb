use mediaplan::download::parse_info_json;
use mediaplan::download::parse_playlist_lines;
use mediaplan::media::file_type_for_extension;
use mediaplan::media::greet;
use mediaplan::media::is_video_extension;
use mediaplan::plan::MediaError;
use mediaplan::probe::assemble_probe_result;
use mediaplan::probe::build_probe_plan;
use mediaplan::probe::parse_duration_ms;
use mediaplan::probe::parse_fps_milli;
use mediaplan::probe::parse_probe_report;

fn strs(v: &[&str]) -> Vec<String> {
    v.iter().map(|s| s.to_string()).collect()
}

const REPORT: &str = r#"{
  "format": { "duration": "12.345", "bit_rate": "128000" },
  "streams": [
    { "codec_type": "audio", "codec_name": "aac" },
    { "codec_type": "video", "codec_name": "h264",
      "width": 1920, "height": 1080, "r_frame_rate": "30000/1001" }
  ]
}"#;

#[test]
fn full_report_is_parsed() {
    let p = parse_probe_report(REPORT).unwrap();
    assert_eq!(p.duration_ms, 12345);
    assert_eq!(p.width, 1920);
    assert_eq!(p.height, 1080);
    assert_eq!(p.fps_milli, 29970);
    assert_eq!(p.codec, "h264");
    assert_eq!(p.bitrate_bps, 128000);
}

#[test]
fn malformed_report_is_parse_failed() {
    match parse_probe_report("{ not json") {
        Err(MediaError::ParseFailed) => {}
        _ => panic!("malformed JSON must be ParseFailed"),
    }
}

#[test]
fn missing_duration_is_its_own_error() {
    match parse_probe_report(r#"{ "format": {}, "streams": [] }"#) {
        Err(MediaError::DurationUnavailable) => {}
        _ => panic!("a parsed report without a duration must be DurationUnavailable"),
    }
    match parse_probe_report(r#"{ "format": { "duration": "N/A" }, "streams": [] }"#) {
        Err(MediaError::DurationUnavailable) => {}
        _ => panic!("an unreadable duration must be DurationUnavailable"),
    }
}

#[test]
fn audio_only_input_defaults_stream_fields() {
    let report = r#"{
      "format": { "duration": "3.5" },
      "streams": [ { "codec_type": "audio", "codec_name": "mp3" } ]
    }"#;
    let p = parse_probe_report(report).unwrap();
    assert_eq!(p.duration_ms, 3500);
    assert_eq!(p.width, 0);
    assert_eq!(p.height, 0);
    assert_eq!(p.fps_milli, 0);
    assert_eq!(p.codec, "unknown");
    assert_eq!(p.bitrate_bps, 0);
}

#[test]
fn assemble_defaults_and_values() {
    let p = assemble_probe_result(
        Some("1.5"),
        None,
        Some(480),
        Some("29.97"),
        None,
        Some("not-a-number"),
    )
    .unwrap();
    assert_eq!(p.duration_ms, 1500);
    assert_eq!(p.width, 0);
    assert_eq!(p.height, 480);
    assert_eq!(p.fps_milli, 29970);
    assert_eq!(p.codec, "unknown");
    assert_eq!(p.bitrate_bps, 0);
    assert!(matches!(
        assemble_probe_result(None, None, None, None, None, None),
        Err(MediaError::DurationUnavailable)
    ));
}

#[test]
fn duration_parsing_exact_values() {
    assert_eq!(parse_duration_ms("10"), Some(10000));
    assert_eq!(parse_duration_ms("0.5"), Some(500));
    assert_eq!(parse_duration_ms(".25"), Some(250));
    assert_eq!(parse_duration_ms("1."), Some(1000));
    assert_eq!(parse_duration_ms("12.3456789"), Some(12345));
    assert_eq!(parse_duration_ms("0"), Some(0));
    assert_eq!(parse_duration_ms(""), None);
    assert_eq!(parse_duration_ms("."), None);
    assert_eq!(parse_duration_ms("-1"), None);
    assert_eq!(parse_duration_ms("1.2.3"), None);
    assert_eq!(parse_duration_ms("abc"), None);
}

#[test]
fn frame_rate_parsing_exact_values() {
    assert_eq!(parse_fps_milli("30/1"), 30000);
    assert_eq!(parse_fps_milli("30000/1001"), 29970);
    assert_eq!(parse_fps_milli("0/0"), 0);
    assert_eq!(parse_fps_milli("24/0"), 0);
    assert_eq!(parse_fps_milli("x/1"), 0);
    assert_eq!(parse_fps_milli("30/x"), 30000);
    assert_eq!(parse_fps_milli("29.97"), 29970);
    assert_eq!(parse_fps_milli("garbage"), 0);
}

#[test]
fn probe_plan_is_exact() {
    let p = build_probe_plan("media/in.mp4");
    assert_eq!(p.program, "ffprobe");
    assert_eq!(
        p.args,
        strs(&[
            "-v", "quiet", "-print_format", "json", "-show_format", "-show_streams",
            "media/in.mp4",
        ])
    );
}

#[test]
fn info_json_round_trip() {
    assert!(parse_info_json(r#"{"title": "x"}"#).is_ok());
    assert!(matches!(parse_info_json("nope"), Err(MediaError::ParseFailed)));
}

#[test]
fn playlist_lines_keep_only_parsable_entries() {
    let out = parse_playlist_lines("{\"id\": 1}\nnot json\n{\"id\": 2}\n");
    assert_eq!(out.len(), 2);
    assert_eq!(parse_playlist_lines("").len(), 0);
    assert_eq!(parse_playlist_lines("{}\r\n{}\r\n").len(), 2);
}

#[test]
fn video_extensions_are_classified() {
    for ext in ["mp4", "avi", "mkv", "mov", "wmv", "flv", "webm", "m4v", "3gp", "ogv"] {
        assert!(is_video_extension(ext), "{ext} is video");
        assert_eq!(file_type_for_extension(ext), "video");
    }
    for ext in ["mp3", "wav", "flac", "ogg", "MP4", ""] {
        assert!(!is_video_extension(ext), "{ext} is not video");
        assert_eq!(file_type_for_extension(ext), "audio");
    }
}

#[test]
fn greeting_is_exact() {
    assert_eq!(greet("Ada"), "Hello, Ada! You've been greeted from Rust!");
}
