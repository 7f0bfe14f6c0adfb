use mediaplan::download::after_fallback;
use mediaplan::download::after_primary;
use mediaplan::download::build_details_query_plan;
use mediaplan::download::build_info_query_plan;
use mediaplan::download::build_list_formats_plan;
use mediaplan::download::build_playlist_query_plan;
use mediaplan::download::build_primary_download_plan;
use mediaplan::download::build_ytdlp_version_plan;
use mediaplan::download::fallback_selector;
use mediaplan::download::interpret_capture_output;
use mediaplan::download::interpret_version_output;
use mediaplan::download::quality_selector;
use mediaplan::download::video_url_for;
use mediaplan::download::DownloadOptions;
use mediaplan::download::DownloadOutcome;
use mediaplan::plan::ExecutionResult;
use mediaplan::plan::MediaError;

fn strs(v: &[&str]) -> Vec<String> {
    v.iter().map(|s| s.to_string()).collect()
}

fn options() -> DownloadOptions {
    DownloadOptions {
        url: "https://example.com/v".to_string(),
        output_dir: "dl".to_string(),
        quality: "720p".to_string(),
        container_format: "MP4 Video".to_string(),
        audio_only: false,
        audio_format: "mp3".to_string(),
        embed_subs: false,
        embed_thumbnail: false,
        embed_metadata: false,
        include_playlist: false,
        extra_args: String::new(),
    }
}

fn result(succeeded: bool, stdout: &str, stderr: &str) -> ExecutionResult {
    ExecutionResult {
        succeeded,
        stdout: stdout.to_string(),
        stderr: stderr.to_string(),
    }
}

const SEL_720: &str =
    "bestvideo[height<=720][vcodec^=avc]+bestaudio[acodec^=mp4a]/best[height<=720][vcodec^=avc]";

#[test]
fn primary_video_plan_arguments_in_order() {
    let p = build_primary_download_plan(&options());
    assert_eq!(p.program, "yt-dlp");
    assert_eq!(
        p.args,
        strs(&[
            "-o", "dl/%(title)s.%(ext)s", "--verbose", "-f", SEL_720,
            "--merge-output-format", "mp4", "--no-playlist", "https://example.com/v",
        ])
    );
    assert_eq!(p.output_path, "dl/%(title)s.%(ext)s");
}

#[test]
fn primary_audio_plan_arguments() {
    let o = DownloadOptions {
        audio_only: true,
        quality: "best".to_string(),
        ..options()
    };
    let p = build_primary_download_plan(&o);
    assert_eq!(
        p.args,
        strs(&[
            "-o", "dl/%(title)s.%(ext)s", "--verbose", "-x", "--audio-format", "mp3",
            "--audio-quality=0", "--no-playlist", "https://example.com/v",
        ])
    );
}

#[test]
fn subtitles_playlist_and_extra_args() {
    let o = DownloadOptions {
        embed_subs: true,
        include_playlist: true,
        extra_args: "  --newline   -ciw ".to_string(),
        ..options()
    };
    let p = build_primary_download_plan(&o);
    assert_eq!(
        p.args,
        strs(&[
            "-o", "dl/%(title)s.%(ext)s", "--verbose", "-f", SEL_720,
            "--merge-output-format", "mp4", "--write-subs", "--write-auto-subs", "--sub-lang",
            "en,id", "--newline", "-ciw", "https://example.com/v",
        ])
    );
}

#[test]
fn custom_selector_is_passed_through() {
    assert_eq!(quality_selector("bestvideo+bestaudio"), "bestvideo+bestaudio");
    assert_eq!(quality_selector("best[height<=480]"), "best[height<=480]");
    assert_eq!(quality_selector("best"), "best");
    assert_eq!(quality_selector("worst"), "worst");
}

#[test]
fn selector_table_is_total() {
    for q in ["1080p", "720p", "480p", "360p", "best", "worst", "4320p", "", "b+a", "x[y]"] {
        assert!(!quality_selector(q).is_empty(), "primary selector empty for {:?}", q);
        assert!(!fallback_selector(q).is_empty(), "fallback selector empty for {:?}", q);
    }
}

#[test]
fn fallback_selectors_degrade_to_unconstrained() {
    assert!(fallback_selector("720p").ends_with("/best"));
    assert!(fallback_selector("360p").ends_with("/worst"));
    assert_eq!(fallback_selector("anything else"), "best/worst");
}

#[test]
fn primary_success_is_terminal() {
    let r = after_primary(&options(), &result(true, "done", ""));
    match r {
        DownloadOutcome::Success(m) => {
            assert_eq!(m, "Download completed successfully. Output: done");
        }
        _ => panic!("a successful primary run must be terminal"),
    }
}

#[test]
fn format_signature_licenses_exactly_one_fallback() {
    let err = "ERROR: Requested format is not available. Use --list-formats.";
    let r = after_primary(&options(), &result(false, "", err));
    match r {
        DownloadOutcome::RunFallback(p) => {
            assert_eq!(p.program, "yt-dlp");
            assert_eq!(p.args[2], "--extractor-args");
            assert_eq!(p.args[3], "youtube:player_client=android");
            // The fallback merge target is the raw container format.
            let i = p.args.iter().position(|a| a == "--merge-output-format").unwrap();
            assert_eq!(p.args[i + 1], "MP4 Video");
        }
        _ => panic!("the format signature must license a fallback"),
    }
}

#[test]
fn other_failures_are_terminal_at_once() {
    let r = after_primary(&options(), &result(false, "", "ERROR: network unreachable"));
    match r {
        DownloadOutcome::Failure(m) => {
            assert_eq!(m, "yt-dlp download failed: ERROR: network unreachable");
        }
        _ => panic!("other failures must not trigger a fallback"),
    }
}

#[test]
fn fallback_success_notes_the_fallback() {
    let r = after_fallback("first error", &result(true, "saved", ""));
    assert_eq!(r.unwrap(), "Download completed with fallback format. Output: saved");
}

#[test]
fn fallback_failure_aggregates_both_errors() {
    let r = after_fallback("first error", &result(false, "", "second error"));
    match r {
        Err(MediaError::FallbackExhausted(a, b)) => {
            assert_eq!(a, "first error");
            assert_eq!(b, "second error");
            let m = MediaError::FallbackExhausted(a, b).message();
            assert_eq!(
                m,
                "yt-dlp download failed even with fallback: Original error: first error\nFallback error: second error"
            );
        }
        _ => panic!("an exhausted fallback must aggregate both error texts"),
    }
}

#[test]
fn merge_format_is_derived_case_insensitively() {
    let mk = |fmt: &str| {
        let o = DownloadOptions {
            container_format: fmt.to_string(),
            ..options()
        };
        let p = build_primary_download_plan(&o);
        let i = p.args.iter().position(|a| a == "--merge-output-format").unwrap();
        p.args[i + 1].clone()
    };
    assert_eq!(mk("WebM"), "webm");
    assert_eq!(mk("Matroska MKV"), "mkv");
    assert_eq!(mk("something else"), "mp4");
    assert_eq!(mk("Best Video"), "mp4");
}

#[test]
fn video_url_for_bare_identifier() {
    assert_eq!(video_url_for("abc123"), "https://www.youtube.com/watch?v=abc123");
    assert_eq!(video_url_for("https://example.com/x"), "https://example.com/x");
}

#[test]
fn query_plans_are_exact() {
    assert_eq!(
        build_info_query_plan("u").args,
        strs(&["--dump-json", "--no-playlist", "u"])
    );
    assert_eq!(
        build_playlist_query_plan("u").args,
        strs(&["--dump-json", "--flat-playlist", "--skip-download", "u"])
    );
    assert_eq!(
        build_details_query_plan("vid").args,
        strs(&[
            "--dump-json", "--no-playlist", "--skip-download",
            "https://www.youtube.com/watch?v=vid",
        ])
    );
    assert_eq!(
        build_list_formats_plan("u").args,
        strs(&["-F", "--extractor-args", "youtube:player_client=android", "u"])
    );
    assert_eq!(build_ytdlp_version_plan().args, strs(&["--version"]));
}

#[test]
fn version_output_is_trimmed() {
    let r = interpret_version_output(&result(true, "2024.08.06\n", ""));
    assert_eq!(r.unwrap(), "2024.08.06");
    match interpret_version_output(&result(false, "", "boom")) {
        Err(MediaError::ToolFailed(m)) => {
            assert_eq!(m, "yt-dlp is installed but not working properly");
        }
        _ => panic!("a failing version check must be a tool failure"),
    }
}

#[test]
fn capture_output_passes_streams_through() {
    assert_eq!(interpret_capture_output(&result(true, "listing", "")).unwrap(), "listing");
    match interpret_capture_output(&result(false, "", "bad url")) {
        Err(MediaError::ToolFailed(m)) => assert_eq!(m, "bad url"),
        _ => panic!("a failing capture must surface the error text"),
    }
}
