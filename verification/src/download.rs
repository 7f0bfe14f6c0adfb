//! Downloader plan builder and fallback controller.  The primary plan maps
//! a quality tier through a codec-constrained selector table; when its
//! execution fails with the specific "format not available" signature, one
//! fallback plan is built with a progressively looser per-tier selector
//! chain and an alternate-client extractor hint, and run exactly once.
//! Any other failure is terminal at once.

use vstd::prelude::*;
use vstd::string::StrSliceExecFns;
use vstd::string::StringExecFns;

use crate::jsonio::spec_json_ok;
use crate::jsonio::json_parse;
use crate::plan::CommandPlan;
use crate::plan::ExecutionResult;
use crate::plan::MediaError;
use crate::plan::append_args;
use crate::plan::push_arg;
use crate::plan::push_arg_string;
use crate::text::spec_has_substring;
use crate::text::spec_lower;
use crate::text::spec_split_ws;
use crate::text::spec_starts_with;
use crate::text::spec_trim;
use crate::text::contains_char;
use crate::text::contains_lowered;
use crate::text::has_substring;
use crate::text::split_ws;
use crate::text::starts_with;
use crate::text::str_eq;
use crate::text::trim_str;

verus! {

/// One download request.
pub struct DownloadOptions {
    pub url: String,
    pub output_dir: String,
    pub quality: String,
    pub container_format: String,
    pub audio_only: bool,
    pub audio_format: String,
    pub embed_subs: bool,
    pub embed_thumbnail: bool,
    pub embed_metadata: bool,
    pub include_playlist: bool,
    pub extra_args: String,
}

/// The output template: title and extension chosen by the tool, inside
/// the requested directory.
pub open spec fn spec_template(dir: Seq<char>) -> Seq<char> {
    dir + "/%(title)s.%(ext)s"@
}

/// The quality text is already a selector of the tool's own syntax rather
/// than a named tier: it holds bracket or plus tokens, or is literally
/// `best` or `worst`.
pub open spec fn spec_is_custom_selector(q: Seq<char>) -> bool {
    q.contains('[') || q.contains('+') || q == "best"@ || q == "worst"@
}

/// The primary format selector for a quality text: passed through when it
/// is already selector syntax, otherwise one of four named resolution
/// tiers, each constrained to a widely supported codec pair, with a
/// generic `best` default.
pub open spec fn spec_quality_selector(q: Seq<char>) -> Seq<char> {
    if spec_is_custom_selector(q) {
        q
    } else if q == "1080p"@ {
        "bestvideo[height<=1080][vcodec^=avc]+bestaudio[acodec^=mp4a]/best[height<=1080][vcodec^=avc]"@
    } else if q == "720p"@ {
        "bestvideo[height<=720][vcodec^=avc]+bestaudio[acodec^=mp4a]/best[height<=720][vcodec^=avc]"@
    } else if q == "480p"@ {
        "bestvideo[height<=480][vcodec^=avc]+bestaudio[acodec^=mp4a]/best[height<=480][vcodec^=avc]"@
    } else if q == "360p"@ {
        "bestvideo[height<=360][vcodec^=avc]+bestaudio[acodec^=mp4a]/best[height<=360][vcodec^=avc]"@
    } else {
        "best"@
    }
}

/// The fallback selector for a quality text: each named tier degrades
/// through progressively looser constraints and ends unconstrained;
/// anything else falls to `best/worst`.
pub open spec fn spec_fallback_selector(q: Seq<char>) -> Seq<char> {
    if q == "1080p"@ {
        "bestvideo[height<=1080][vcodec^=avc]+bestaudio[acodec^=mp4a]/best[height<=1080][vcodec^=avc]/bestvideo[height<=1080]+bestaudio/best[height<=1080]/best"@
    } else if q == "720p"@ {
        "bestvideo[height<=720][vcodec^=avc]+bestaudio[acodec^=mp4a]/best[height<=720][vcodec^=avc]/bestvideo[height<=720]+bestaudio/best[height<=720]/best"@
    } else if q == "480p"@ {
        "bestvideo[height<=480][vcodec^=avc]+bestaudio[acodec^=mp4a]/best[height<=480][vcodec^=avc]/bestvideo[height<=480]+bestaudio/best[height<=480]/best"@
    } else if q == "360p"@ {
        "bestvideo[height<=360][vcodec^=avc]+bestaudio[acodec^=mp4a]/best[height<=360][vcodec^=avc]/bestvideo[height<=360]+bestaudio/best[height<=360]/worst"@
    } else {
        "best/worst"@
    }
}

/// The selector table is total: no quality text, tier name or otherwise,
/// produces an empty selector, in either the primary or the fallback
/// table.
pub proof fn lemma_selector_total(q: Seq<char>)
    ensures
        spec_quality_selector(q).len() > 0,
        spec_fallback_selector(q).len() > 0,
{
    reveal_strlit("best");
    reveal_strlit("worst");
    reveal_strlit("best/worst");
    reveal_strlit("1080p");
    reveal_strlit("720p");
    reveal_strlit("480p");
    reveal_strlit("360p");
    reveal_strlit(
        "bestvideo[height<=1080][vcodec^=avc]+bestaudio[acodec^=mp4a]/best[height<=1080][vcodec^=avc]",
    );
    reveal_strlit(
        "bestvideo[height<=720][vcodec^=avc]+bestaudio[acodec^=mp4a]/best[height<=720][vcodec^=avc]",
    );
    reveal_strlit(
        "bestvideo[height<=480][vcodec^=avc]+bestaudio[acodec^=mp4a]/best[height<=480][vcodec^=avc]",
    );
    reveal_strlit(
        "bestvideo[height<=360][vcodec^=avc]+bestaudio[acodec^=mp4a]/best[height<=360][vcodec^=avc]",
    );
    reveal_strlit(
        "bestvideo[height<=1080][vcodec^=avc]+bestaudio[acodec^=mp4a]/best[height<=1080][vcodec^=avc]/bestvideo[height<=1080]+bestaudio/best[height<=1080]/best",
    );
    reveal_strlit(
        "bestvideo[height<=720][vcodec^=avc]+bestaudio[acodec^=mp4a]/best[height<=720][vcodec^=avc]/bestvideo[height<=720]+bestaudio/best[height<=720]/best",
    );
    reveal_strlit(
        "bestvideo[height<=480][vcodec^=avc]+bestaudio[acodec^=mp4a]/best[height<=480][vcodec^=avc]/bestvideo[height<=480]+bestaudio/best[height<=480]/best",
    );
    reveal_strlit(
        "bestvideo[height<=360][vcodec^=avc]+bestaudio[acodec^=mp4a]/best[height<=360][vcodec^=avc]/bestvideo[height<=360]+bestaudio/best[height<=360]/worst",
    );
    if spec_is_custom_selector(q) {
        if q.contains('[') || q.contains('+') {
            assert(q.len() > 0);
        }
    }
}

/// The primary selector for a quality text; see [`spec_quality_selector`].
pub fn quality_selector(q: &str) -> (r: String)
    ensures
        r@ == spec_quality_selector(q@),
{
    if contains_char(q, '[') || contains_char(q, '+') || str_eq(q, "best") || str_eq(q, "worst") {
        q.to_owned()
    } else if str_eq(q, "1080p") {
        "bestvideo[height<=1080][vcodec^=avc]+bestaudio[acodec^=mp4a]/best[height<=1080][vcodec^=avc]".to_owned()
    } else if str_eq(q, "720p") {
        "bestvideo[height<=720][vcodec^=avc]+bestaudio[acodec^=mp4a]/best[height<=720][vcodec^=avc]".to_owned()
    } else if str_eq(q, "480p") {
        "bestvideo[height<=480][vcodec^=avc]+bestaudio[acodec^=mp4a]/best[height<=480][vcodec^=avc]".to_owned()
    } else if str_eq(q, "360p") {
        "bestvideo[height<=360][vcodec^=avc]+bestaudio[acodec^=mp4a]/best[height<=360][vcodec^=avc]".to_owned()
    } else {
        "best".to_owned()
    }
}

/// The fallback selector for a quality text; see
/// [`spec_fallback_selector`].
pub fn fallback_selector(q: &str) -> (r: String)
    ensures
        r@ == spec_fallback_selector(q@),
{
    if str_eq(q, "1080p") {
        "bestvideo[height<=1080][vcodec^=avc]+bestaudio[acodec^=mp4a]/best[height<=1080][vcodec^=avc]/bestvideo[height<=1080]+bestaudio/best[height<=1080]/best".to_owned()
    } else if str_eq(q, "720p") {
        "bestvideo[height<=720][vcodec^=avc]+bestaudio[acodec^=mp4a]/best[height<=720][vcodec^=avc]/bestvideo[height<=720]+bestaudio/best[height<=720]/best".to_owned()
    } else if str_eq(q, "480p") {
        "bestvideo[height<=480][vcodec^=avc]+bestaudio[acodec^=mp4a]/best[height<=480][vcodec^=avc]/bestvideo[height<=480]+bestaudio/best[height<=480]/best".to_owned()
    } else if str_eq(q, "360p") {
        "bestvideo[height<=360][vcodec^=avc]+bestaudio[acodec^=mp4a]/best[height<=360][vcodec^=avc]/bestvideo[height<=360]+bestaudio/best[height<=360]/worst".to_owned()
    } else {
        "best/worst".to_owned()
    }
}

/// The single audio-quality token: the tool's best grade unless the
/// quality text literally asks for the worst.
pub open spec fn spec_audio_quality_arg(q: Seq<char>) -> Seq<char> {
    if q == "worst"@ {
        "--audio-quality=9"@
    } else {
        "--audio-quality=0"@
    }
}

fn audio_quality_arg(q: &str) -> (r: String)
    ensures
        r@ == spec_audio_quality_arg(q@),
{
    if str_eq(q, "worst") {
        "--audio-quality=9".to_owned()
    } else {
        "--audio-quality=0".to_owned()
    }
}

/// The container to merge separate streams into, derived from the format
/// label case-insensitively, defaulting to `mp4`.
pub open spec fn spec_merge_format(fmt: Seq<char>) -> Seq<char> {
    if spec_has_substring(spec_lower(fmt), "mp4"@) || spec_has_substring(
        spec_lower(fmt),
        "video"@,
    ) {
        "mp4"@
    } else if spec_has_substring(spec_lower(fmt), "webm"@) {
        "webm"@
    } else if spec_has_substring(spec_lower(fmt), "mkv"@) {
        "mkv"@
    } else {
        "mp4"@
    }
}

fn merge_format_for(fmt: &str) -> (r: String)
    ensures
        r@ == spec_merge_format(fmt@),
{
    if contains_lowered(fmt, "mp4") || contains_lowered(fmt, "video") {
        "mp4".to_owned()
    } else if contains_lowered(fmt, "webm") {
        "webm".to_owned()
    } else if contains_lowered(fmt, "mkv") {
        "mkv".to_owned()
    } else {
        "mp4".to_owned()
    }
}

/// The subtitle arguments, when subtitles are to be embedded.
pub open spec fn spec_subs_seg(o: DownloadOptions) -> Seq<Seq<char>> {
    if o.embed_subs {
        seq!["--write-subs"@, "--write-auto-subs"@, "--sub-lang"@, "en,id"@]
    } else {
        Seq::empty()
    }
}

/// The playlist argument: single-item downloads opt out of the playlist.
pub open spec fn spec_playlist_seg(o: DownloadOptions) -> Seq<Seq<char>> {
    if !o.include_playlist {
        seq!["--no-playlist"@]
    } else {
        Seq::empty()
    }
}

/// The common tail of both download plans: subtitle flags, playlist flag,
/// the user's extra tokens split on whitespace and passed verbatim, and
/// the URL last.
pub open spec fn spec_download_tail(o: DownloadOptions) -> Seq<Seq<char>> {
    spec_subs_seg(o) + spec_playlist_seg(o) + spec_split_ws(o.extra_args@) + seq![o.url@]
}

/// The primary download argument list; see the module documentation.
pub open spec fn spec_primary_download_args(o: DownloadOptions) -> Seq<Seq<char>> {
    seq!["-o"@, spec_template(o.output_dir@), "--verbose"@]
    + (if o.audio_only {
        seq!["-x"@, "--audio-format"@, o.audio_format@, spec_audio_quality_arg(o.quality@)]
    } else {
        seq![
            "-f"@, spec_quality_selector(o.quality@),
            "--merge-output-format"@, spec_merge_format(o.container_format@),
        ]
    })
    + spec_download_tail(o)
}

/// The fallback download argument list: the alternate-client extractor
/// hint, the looser selector chain, and the raw container format as the
/// merge target.
pub open spec fn spec_fallback_download_args(o: DownloadOptions) -> Seq<Seq<char>> {
    seq![
        "-o"@, spec_template(o.output_dir@),
        "--extractor-args"@, "youtube:player_client=android"@,
        "--verbose"@,
    ]
    + (if o.audio_only {
        seq!["-x"@, "--audio-format"@, o.audio_format@, "--audio-quality=0"@]
    } else {
        seq!["-f"@, spec_fallback_selector(o.quality@), "--merge-output-format"@,
            o.container_format@]
    })
    + spec_download_tail(o)
}

fn template_for(dir: &str) -> (r: String)
    ensures
        r@ == spec_template(dir@),
{
    let mut t = dir.to_owned();
    t.append("/%(title)s.%(ext)s");
    t
}

fn push_download_tail(args: &mut Vec<String>, o: &DownloadOptions)
    ensures
        final(args).deep_view() == old(args).deep_view() + spec_download_tail(*o),
{
    let ghost head = args.deep_view();
    if o.embed_subs {
        push_arg(args, "--write-subs");
        push_arg(args, "--write-auto-subs");
        push_arg(args, "--sub-lang");
        push_arg(args, "en,id");
    }
    proof {
        assert(args.deep_view() =~= head + spec_subs_seg(*o));
    }
    if !o.include_playlist {
        push_arg(args, "--no-playlist");
    }
    proof {
        assert(args.deep_view() =~= head + spec_subs_seg(*o) + spec_playlist_seg(*o));
    }
    let extra = split_ws(o.extra_args.as_str());
    append_args(args, extra);
    push_arg_string(args, o.url.clone());
    proof {
        assert(args.deep_view() =~= head + spec_download_tail(*o));
    }
}

/// Builds the primary download plan; see [`spec_primary_download_args`].
pub fn build_primary_download_plan(o: &DownloadOptions) -> (r: CommandPlan)
    ensures
        r.program@ == "yt-dlp"@,
        r.args_view() == spec_primary_download_args(*o),
        r.output_path@ == spec_template(o.output_dir@),
{
    let template = template_for(o.output_dir.as_str());
    let mut args: Vec<String> = Vec::new();
    push_arg(&mut args, "-o");
    push_arg_string(&mut args, template.clone());
    push_arg(&mut args, "--verbose");
    let ghost head = args.deep_view();
    if o.audio_only {
        push_arg(&mut args, "-x");
        push_arg(&mut args, "--audio-format");
        push_arg_string(&mut args, o.audio_format.clone());
        push_arg_string(&mut args, audio_quality_arg(o.quality.as_str()));
    } else {
        push_arg(&mut args, "-f");
        push_arg_string(&mut args, quality_selector(o.quality.as_str()));
        push_arg(&mut args, "--merge-output-format");
        push_arg_string(&mut args, merge_format_for(o.container_format.as_str()));
    }
    proof {
        assert(args.deep_view() =~= head + (if o.audio_only {
            seq!["-x"@, "--audio-format"@, o.audio_format@, spec_audio_quality_arg(o.quality@)]
        } else {
            seq![
                "-f"@, spec_quality_selector(o.quality@),
                "--merge-output-format"@, spec_merge_format(o.container_format@),
            ]
        }));
    }
    push_download_tail(&mut args, o);
    proof {
        assert(args.deep_view() =~= spec_primary_download_args(*o));
    }
    CommandPlan { program: "yt-dlp".to_owned(), args, output_path: template }
}

/// Builds the fallback download plan; see
/// [`spec_fallback_download_args`].
pub fn build_fallback_download_plan(o: &DownloadOptions) -> (r: CommandPlan)
    ensures
        r.program@ == "yt-dlp"@,
        r.args_view() == spec_fallback_download_args(*o),
        r.output_path@ == spec_template(o.output_dir@),
{
    let template = template_for(o.output_dir.as_str());
    let mut args: Vec<String> = Vec::new();
    push_arg(&mut args, "-o");
    push_arg_string(&mut args, template.clone());
    push_arg(&mut args, "--extractor-args");
    push_arg(&mut args, "youtube:player_client=android");
    push_arg(&mut args, "--verbose");
    let ghost head = args.deep_view();
    if o.audio_only {
        push_arg(&mut args, "-x");
        push_arg(&mut args, "--audio-format");
        push_arg_string(&mut args, o.audio_format.clone());
        push_arg(&mut args, "--audio-quality=0");
    } else {
        push_arg(&mut args, "-f");
        push_arg_string(&mut args, fallback_selector(o.quality.as_str()));
        push_arg(&mut args, "--merge-output-format");
        push_arg_string(&mut args, o.container_format.clone());
    }
    proof {
        assert(args.deep_view() =~= head + (if o.audio_only {
            seq!["-x"@, "--audio-format"@, o.audio_format@, "--audio-quality=0"@]
        } else {
            seq!["-f"@, spec_fallback_selector(o.quality@), "--merge-output-format"@,
                o.container_format@]
        }));
    }
    push_download_tail(&mut args, o);
    proof {
        assert(args.deep_view() =~= spec_fallback_download_args(*o));
    }
    CommandPlan { program: "yt-dlp".to_owned(), args, output_path: template }
}

/// The one failure signature that licenses a fallback attempt: the tool
/// reported that no matching format was available.
pub open spec fn spec_format_unavailable(err: Seq<char>) -> bool {
    spec_has_substring(err, "Requested format is not available"@)
}

/// Tests for the fallback-licensing signature; see
/// [`spec_format_unavailable`].
pub fn is_format_unavailable(err: &str) -> (r: bool)
    ensures
        r == spec_format_unavailable(err@),
{
    has_substring(err, "Requested format is not available")
}

/// Where the controller stands after the primary attempt.
pub enum DownloadOutcome {
    /// Terminal success, carrying the completion message.
    Success(String),
    /// The one fallback attempt is licensed; run this plan next.
    RunFallback(CommandPlan),
    /// Terminal failure, carrying the tool's error text verbatim.
    Failure(String),
}

/// Decides what follows the primary attempt.  A fallback is licensed if
/// and only if the attempt failed and its error text holds the
/// format-not-available signature; any other failure is terminal with the
/// error text surfaced verbatim.
pub fn after_primary(o: &DownloadOptions, result: &ExecutionResult) -> (r: DownloadOutcome)
    ensures
        r is RunFallback <==> !result.succeeded && spec_format_unavailable(result.stderr@),
        result.succeeded ==> (r matches DownloadOutcome::Success(m)
            && m@ == "Download completed successfully. Output: "@ + result.stdout@),
        !result.succeeded && spec_format_unavailable(result.stderr@) ==> (r matches
            DownloadOutcome::RunFallback(p) && p.program@ == "yt-dlp"@
            && p.args_view() == spec_fallback_download_args(*o)
            && p.output_path@ == spec_template(o.output_dir@)),
        !result.succeeded && !spec_format_unavailable(result.stderr@) ==> (r matches
            DownloadOutcome::Failure(m) && m@ == "yt-dlp download failed: "@ + result.stderr@),
{
    if result.succeeded {
        let mut m = "Download completed successfully. Output: ".to_owned();
        m.append(result.stdout.as_str());
        DownloadOutcome::Success(m)
    } else if is_format_unavailable(result.stderr.as_str()) {
        DownloadOutcome::RunFallback(build_fallback_download_plan(o))
    } else {
        let mut m = "yt-dlp download failed: ".to_owned();
        m.append(result.stderr.as_str());
        DownloadOutcome::Failure(m)
    }
}

/// Decides the terminal outcome after the fallback attempt: success with
/// a message noting the fallback was used, or a failure aggregating both
/// the original and the fallback error text.  There is no third attempt.
pub fn after_fallback(primary_error: &str, result: &ExecutionResult) -> (r: Result<
    String,
    MediaError,
>)
    ensures
        r is Ok <==> result.succeeded,
        result.succeeded ==> (r matches Ok(m)
            && m@ == "Download completed with fallback format. Output: "@ + result.stdout@),
        !result.succeeded ==> (r matches Err(e) && e matches MediaError::FallbackExhausted(a, b)
            && a@ == primary_error@ && b@ == result.stderr@),
{
    if result.succeeded {
        let mut m = "Download completed with fallback format. Output: ".to_owned();
        m.append(result.stdout.as_str());
        Ok(m)
    } else {
        Err(MediaError::FallbackExhausted(primary_error.to_owned(), result.stderr.clone()))
    }
}

/// A video reference that is not already a URL is read as an identifier
/// on the default video site.
pub open spec fn spec_video_url(id: Seq<char>) -> Seq<char> {
    if spec_starts_with(id, "http"@) {
        id
    } else {
        "https://www.youtube.com/watch?v="@ + id
    }
}

/// The URL for a video reference; see [`spec_video_url`].
pub fn video_url_for(id: &str) -> (r: String)
    ensures
        r@ == spec_video_url(id@),
{
    if starts_with(id, "http") {
        id.to_owned()
    } else {
        let mut u = "https://www.youtube.com/watch?v=".to_owned();
        u.append(id);
        u
    }
}

/// The single-video metadata query.
pub fn build_info_query_plan(url: &str) -> (r: CommandPlan)
    ensures
        r.program@ == "yt-dlp"@,
        r.args_view() == seq!["--dump-json"@, "--no-playlist"@, url@],
        r.output_path@ == Seq::<char>::empty(),
{
    let mut args: Vec<String> = Vec::new();
    push_arg(&mut args, "--dump-json");
    push_arg(&mut args, "--no-playlist");
    push_arg(&mut args, url);
    proof {
        assert(args.deep_view() =~= seq!["--dump-json"@, "--no-playlist"@, url@]);
    }
    CommandPlan { program: "yt-dlp".to_owned(), args, output_path: String::new() }
}

/// The flat playlist listing query: entries only, nothing downloaded.
pub fn build_playlist_query_plan(url: &str) -> (r: CommandPlan)
    ensures
        r.program@ == "yt-dlp"@,
        r.args_view() == seq!["--dump-json"@, "--flat-playlist"@, "--skip-download"@, url@],
        r.output_path@ == Seq::<char>::empty(),
{
    let mut args: Vec<String> = Vec::new();
    push_arg(&mut args, "--dump-json");
    push_arg(&mut args, "--flat-playlist");
    push_arg(&mut args, "--skip-download");
    push_arg(&mut args, url);
    proof {
        assert(args.deep_view() =~= seq![
            "--dump-json"@, "--flat-playlist"@, "--skip-download"@, url@,
        ]);
    }
    CommandPlan { program: "yt-dlp".to_owned(), args, output_path: String::new() }
}

/// The single-video detail query for a video reference.
pub fn build_details_query_plan(video_id: &str) -> (r: CommandPlan)
    ensures
        r.program@ == "yt-dlp"@,
        r.args_view() == seq![
            "--dump-json"@, "--no-playlist"@, "--skip-download"@, spec_video_url(video_id@),
        ],
        r.output_path@ == Seq::<char>::empty(),
{
    let url = video_url_for(video_id);
    let mut args: Vec<String> = Vec::new();
    push_arg(&mut args, "--dump-json");
    push_arg(&mut args, "--no-playlist");
    push_arg(&mut args, "--skip-download");
    push_arg_string(&mut args, url);
    proof {
        assert(args.deep_view() =~= seq![
            "--dump-json"@, "--no-playlist"@, "--skip-download"@, spec_video_url(video_id@),
        ]);
    }
    CommandPlan { program: "yt-dlp".to_owned(), args, output_path: String::new() }
}

/// The format listing query, with the alternate-client extractor hint.
pub fn build_list_formats_plan(url: &str) -> (r: CommandPlan)
    ensures
        r.program@ == "yt-dlp"@,
        r.args_view() == seq![
            "-F"@, "--extractor-args"@, "youtube:player_client=android"@, url@,
        ],
        r.output_path@ == Seq::<char>::empty(),
{
    let mut args: Vec<String> = Vec::new();
    push_arg(&mut args, "-F");
    push_arg(&mut args, "--extractor-args");
    push_arg(&mut args, "youtube:player_client=android");
    push_arg(&mut args, url);
    proof {
        assert(args.deep_view() =~= seq![
            "-F"@, "--extractor-args"@, "youtube:player_client=android"@, url@,
        ]);
    }
    CommandPlan { program: "yt-dlp".to_owned(), args, output_path: String::new() }
}

/// The downloader's availability check.
pub fn build_ytdlp_version_plan() -> (r: CommandPlan)
    ensures
        r.program@ == "yt-dlp"@,
        r.args_view() == seq!["--version"@],
        r.output_path@ == Seq::<char>::empty(),
{
    let mut args: Vec<String> = Vec::new();
    push_arg(&mut args, "--version");
    proof {
        assert(args.deep_view() =~= seq!["--version"@]);
    }
    CommandPlan { program: "yt-dlp".to_owned(), args, output_path: String::new() }
}

/// Reads the availability check's outcome: the trimmed version text on
/// success, a tool failure otherwise.
pub fn interpret_version_output(result: &ExecutionResult) -> (r: Result<String, MediaError>)
    ensures
        r is Ok <==> result.succeeded,
        result.succeeded ==> (r matches Ok(m) && m@ == spec_trim(result.stdout@)),
        !result.succeeded ==> (r matches Err(e) && e matches MediaError::ToolFailed(m)
            && m@ == "yt-dlp is installed but not working properly"@),
{
    if result.succeeded {
        Ok(trim_str(result.stdout.as_str()).to_owned())
    } else {
        Err(MediaError::ToolFailed("yt-dlp is installed but not working properly".to_owned()))
    }
}

/// Reads a capture-everything invocation's outcome: the standard output
/// on success, the error text as a tool failure otherwise.
pub fn interpret_capture_output(result: &ExecutionResult) -> (r: Result<String, MediaError>)
    ensures
        r is Ok <==> result.succeeded,
        result.succeeded ==> (r matches Ok(m) && m@ == result.stdout@),
        !result.succeeded ==> (r matches Err(e) && e matches MediaError::ToolFailed(m)
            && m@ == result.stderr@),
{
    if result.succeeded {
        Ok(result.stdout.clone())
    } else {
        Err(MediaError::ToolFailed(result.stderr.clone()))
    }
}

/// Validates a metadata query's payload as one JSON document.
pub fn parse_info_json(s: &str) -> (r: Result<serde_json::Value, MediaError>)
    ensures
        r is Ok <==> spec_json_ok(s@),
        r matches Err(e) ==> e is ParseFailed,
{
    match json_parse(s) {
        Some(v) => Ok(v),
        None => Err(MediaError::ParseFailed),
    }
}

/// How many of the given lines parse as JSON documents.
pub open spec fn spec_ok_line_count(ls: Seq<Seq<char>>) -> nat
    decreases ls.len(),
{
    if ls.len() == 0 {
        0
    } else {
        spec_ok_line_count(ls.drop_last()) + (if spec_json_ok(ls.last()) {
            1nat
        } else {
            0
        })
    }
}

/// Parses a playlist listing, one JSON document per line, keeping the
/// lines that parse; the result holds exactly one entry per parsable
/// line, in order.
pub fn parse_playlist_lines(s: &str) -> (r: Vec<serde_json::Value>)
    ensures
        r@.len() == spec_ok_line_count(crate::text::spec_split_lines(s@)),
{
    let lines = crate::text::split_lines(s);
    let ghost lv = lines.deep_view();
    let mut out: Vec<serde_json::Value> = Vec::new();
    let mut i: usize = 0;
    while i < lines.len()
        invariant
            i <= lines@.len(),
            lv == lines.deep_view(),
            lv == crate::text::spec_split_lines(s@),
            out@.len() == spec_ok_line_count(lv.subrange(0, i as int)),
        decreases lines@.len() - i,
    {
        proof {
            assert(lv.subrange(0, i + 1).drop_last() =~= lv.subrange(0, i as int));
            assert(lv.subrange(0, i + 1).last() == lv[i as int]);
            assert(lines@[i as int]@ == lv[i as int]);
        }
        match json_parse(lines[i].as_str()) {
            Some(v) => {
                out.push(v);
            },
            None => {},
        }
        i = i + 1;
    }
    proof {
        assert(lv.subrange(0, lv.len() as int) =~= lv);
    }
    out
}

} // verus!
