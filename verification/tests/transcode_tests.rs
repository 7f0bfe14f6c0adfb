use mediaplan::plan::MediaError;
use mediaplan::transcode::build_convert_audio_plan;
use mediaplan::transcode::build_convert_video_plan;
use mediaplan::transcode::build_loop_plan;
use mediaplan::transcode::build_resize_plan;
use mediaplan::transcode::AudioConversionSettings;
use mediaplan::transcode::ConversionSettings;

fn strs(v: &[&str]) -> Vec<String> {
    v.iter().map(|s| s.to_string()).collect()
}

fn full_settings() -> ConversionSettings {
    ConversionSettings {
        video_codec: "libx264".to_string(),
        audio_codec: "aac".to_string(),
        crf: Some(23),
        preset: Some("fast".to_string()),
        bitrate: Some("2M".to_string()),
        fast_mode: None,
    }
}

#[test]
fn convert_copy_is_pure_remux() {
    let settings = ConversionSettings {
        video_codec: "copy".to_string(),
        audio_codec: "aac".to_string(),
        crf: Some(23),
        preset: Some("fast".to_string()),
        bitrate: Some("2M".to_string()),
        fast_mode: None,
    };
    let p = build_convert_video_plan("d/in.avi", "mp4", None, &settings).unwrap();
    assert_eq!(p.program, "ffmpeg");
    assert_eq!(p.args, strs(&["-i", "d/in.avi", "-c", "copy", "-y", "d/in_converted.mp4"]));
    assert!(!p.args.contains(&"-vf".to_string()));
    assert!(!p.args.contains(&"-af".to_string()));
}

#[test]
fn convert_fast_mode_is_pure_remux() {
    let settings = ConversionSettings {
        fast_mode: Some(true),
        ..full_settings()
    };
    let p = build_convert_video_plan("d/in.avi", "webm", None, &settings).unwrap();
    assert_eq!(p.args, strs(&["-i", "d/in.avi", "-c", "copy", "-y", "d/in_converted.webm"]));
}

#[test]
fn convert_full_arguments_in_order() {
    let p = build_convert_video_plan("d/in.avi", "mp4", None, &full_settings()).unwrap();
    assert_eq!(
        p.args,
        strs(&[
            "-i", "d/in.avi", "-c:v", "libx264", "-c:a", "aac", "-crf", "23", "-preset", "fast",
            "-b:v", "2M", "-b:a", "128k", "-y", "d/in_converted.mp4",
        ])
    );
    assert_eq!(p.output_path, "d/in_converted.mp4");
}

#[test]
fn convert_crf_only_for_crf_capable_codecs() {
    let settings = ConversionSettings {
        video_codec: "vp9".to_string(),
        ..full_settings()
    };
    let p = build_convert_video_plan("d/in.avi", "webm", None, &settings).unwrap();
    assert_eq!(
        p.args,
        strs(&[
            "-i", "d/in.avi", "-c:v", "vp9", "-c:a", "aac", "-b:v", "2M", "-b:a", "128k", "-y",
            "d/in_converted.webm",
        ])
    );
}

#[test]
fn convert_empty_bitrate_is_skipped() {
    let settings = ConversionSettings {
        crf: None,
        preset: None,
        bitrate: Some(String::new()),
        ..full_settings()
    };
    let p = build_convert_video_plan("d/in.avi", "mp4", None, &settings).unwrap();
    assert_eq!(
        p.args,
        strs(&[
            "-i", "d/in.avi", "-c:v", "libx264", "-c:a", "aac", "-b:a", "128k", "-y",
            "d/in_converted.mp4",
        ])
    );
}

#[test]
fn convert_output_directory_is_honoured() {
    let p = build_convert_video_plan("d/in.avi", "mp4", Some("out"), &full_settings()).unwrap();
    assert_eq!(p.output_path, "out/in_converted.mp4");
}

#[test]
fn convert_rejects_empty_file_name() {
    match build_convert_video_plan("d/", "mp4", None, &full_settings()) {
        Err(MediaError::InvalidRequest(m)) => assert_eq!(m, "Invalid input file"),
        _ => panic!("a path without a file name must be rejected"),
    }
}

#[test]
fn resize_arguments_in_order() {
    let p = build_resize_plan("v/clip.mov", 1280, 720, true, 80, "mp4").unwrap();
    assert_eq!(p.program, "ffmpeg");
    assert_eq!(
        p.args,
        strs(&[
            "-i", "v/clip.mov",
            "-vf", "scale=1280:720:force_original_aspect_ratio=decrease",
            "-c:v", "libx264",
            "-crf", "11",
            "-c:a", "aac",
            "-b:a", "128k",
            "-y", "v/clip_resized_1280x720.mp4",
        ])
    );
}

#[test]
fn resize_exact_dimensions_without_aspect() {
    let p = build_resize_plan("clip.mov", 640, 480, false, 0, "avi").unwrap();
    assert_eq!(p.args[3], "scale=640:480");
    assert_eq!(p.args[7], "51");
    assert_eq!(p.output_path, "clip_resized_640x480.avi");
}

#[test]
fn loop_plan_arguments_in_order() {
    let p = build_loop_plan("m/song.mp3", "", 10000, 25000).unwrap();
    assert_eq!(p.program, "ffmpeg");
    assert_eq!(
        p.args,
        strs(&[
            "-stream_loop", "2", "-i", "m/song.mp3", "-t", "25.000", "-c", "copy", "-y",
            "m/Loop_song.mp3",
        ])
    );
    assert_eq!(p.output_path, "m/Loop_song.mp3");
}

#[test]
fn loop_plan_explicit_output_directory() {
    let p = build_loop_plan("m/song.mp3", "elsewhere", 10000, 30000).unwrap();
    assert_eq!(p.output_path, "elsewhere/Loop_song.mp3");
}

#[test]
fn audio_convert_flac_arguments() {
    let settings = AudioConversionSettings {
        codec: "flac".to_string(),
        bitrate: None,
        sample_rate: Some(48000),
        channels: Some(2),
        compression: Some(8),
        extract_from_video: Some(true),
    };
    let p = build_convert_audio_plan("v/film.mkv", "flac", Some("a"), &settings).unwrap();
    assert_eq!(
        p.args,
        strs(&[
            "-i", "v/film.mkv", "-c:a", "flac", "-ar", "48000", "-ac", "2",
            "-compression_level", "8", "-vn", "-y", "a/film_converted.flac",
        ])
    );
}

#[test]
fn audio_convert_compression_needs_flac() {
    let settings = AudioConversionSettings {
        codec: "libmp3lame".to_string(),
        bitrate: Some("192k".to_string()),
        sample_rate: None,
        channels: None,
        compression: Some(8),
        extract_from_video: None,
    };
    let p = build_convert_audio_plan("song.wav", "mp3", None, &settings).unwrap();
    assert_eq!(
        p.args,
        strs(&["-i", "song.wav", "-c:a", "libmp3lame", "-b:a", "192k", "-y", "song_converted.mp3"])
    );
}

#[test]
fn output_path_synthesis_is_idempotent() {
    let a = build_convert_video_plan("d/in.avi", "mp4", Some("out"), &full_settings()).unwrap();
    let b = build_convert_video_plan("d/in.avi", "mp4", Some("out"), &full_settings()).unwrap();
    assert_eq!(a.output_path, b.output_path);
    let c = build_resize_plan("v/clip.mov", 1280, 720, true, 80, "mp4").unwrap();
    let d = build_resize_plan("v/clip.mov", 1280, 720, true, 80, "mp4").unwrap();
    assert_eq!(c.output_path, d.output_path);
}
