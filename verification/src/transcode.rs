//! Transcode plan builders: one pure function per operation (time-loop,
//! resize, video conversion, audio conversion, noise reduction), each
//! mapping a settings value to a [`CommandPlan`] for the external
//! transcoder.  Argument order is fixed per operation: input first, then
//! stream-selection and codec flags, then filter flags, then the overwrite
//! flag, with the output path always last.

use vstd::prelude::*;
use vstd::string::StrSliceExecFns;
use vstd::string::StringExecFns;

use crate::calc::spec_crf_from_quality;
use crate::calc::spec_loops_needed;
use crate::calc::crf_from_quality;
use crate::calc::loops_needed;
use crate::paths::spec_file_name;
use crate::paths::spec_file_stem;
use crate::paths::spec_join;
use crate::paths::spec_parent;
use crate::paths::file_name_of;
use crate::paths::join_path;
use crate::paths::parent_of;
use crate::paths::stem_of_path;
use crate::plan::CommandPlan;
use crate::plan::MediaError;
use crate::plan::push_arg;
use crate::plan::push_arg_string;
use crate::text::spec_dec;
use crate::text::spec_fmt_ms;
use crate::text::format_ms;
use crate::text::str_eq;
use crate::text::u64_to_dec;

verus! {

/// Settings for a video conversion.  `fast_mode` or a `copy` video codec
/// short-circuits to a container-only remux.
pub struct ConversionSettings {
    pub video_codec: String,
    pub audio_codec: String,
    pub crf: Option<u32>,
    pub preset: Option<String>,
    pub bitrate: Option<String>,
    pub fast_mode: Option<bool>,
}

/// The conversion is a bare remux: stream copy, no re-encoding.
pub open spec fn spec_is_remux(s: ConversionSettings) -> bool {
    s.fast_mode == Some(true) || s.video_codec@ == "copy"@
}

/// Only these two encoders accept a CRF value or a preset.
pub open spec fn spec_codec_accepts_crf(vc: Seq<char>) -> bool {
    vc == "libx264"@ || vc == "libx265"@
}

/// The expected output path of a conversion: the input's stem plus a fixed
/// suffix and the requested container extension, in the given directory or
/// beside the input.
pub open spec fn spec_convert_output(input: Seq<char>, fmt: Seq<char>, outdir: Option<Seq<char>>)
    -> Seq<char> {
    let dir = match outdir {
        Some(d) => d,
        None => spec_parent(input),
    };
    spec_join(dir, spec_file_stem(spec_file_name(input)) + "_converted."@ + fmt)
}

/// The argument list of a video conversion: a bare remux when requested,
/// otherwise codecs, then CRF and preset (only for encoders that accept
/// them), then an optional video bitrate, the fixed default audio bitrate,
/// the overwrite flag, and the output path.
pub open spec fn spec_convert_video_args(
    input: Seq<char>,
    s: ConversionSettings,
    out: Seq<char>,
) -> Seq<Seq<char>> {
    if spec_is_remux(s) {
        seq!["-i"@, input, "-c"@, "copy"@, "-y"@, out]
    } else {
        seq!["-i"@, input, "-c:v"@, s.video_codec@, "-c:a"@, s.audio_codec@]
        + (if s.crf is Some && spec_codec_accepts_crf(s.video_codec@) {
            seq!["-crf"@, spec_dec(s.crf->Some_0 as nat)]
        } else {
            Seq::empty()
        })
        + (if s.preset is Some && spec_codec_accepts_crf(s.video_codec@) {
            seq!["-preset"@, s.preset->Some_0@]
        } else {
            Seq::empty()
        })
        + (if s.bitrate is Some && s.bitrate->Some_0@.len() > 0 {
            seq!["-b:v"@, s.bitrate->Some_0@]
        } else {
            Seq::empty()
        })
        + seq!["-b:a"@, "128k"@, "-y"@, out]
    }
}

/// A conversion of a `copy` source (or one in fast mode) is a pure remux:
/// exactly one stream-copy invocation, with no filter flag anywhere in the
/// plan, whatever the other settings hold.
pub proof fn lemma_copy_convert_is_pure_remux(
    input: Seq<char>,
    s: ConversionSettings,
    out: Seq<char>,
)
    requires
        spec_is_remux(s),
    ensures
        spec_convert_video_args(input, s, out) == seq!["-i"@, input, "-c"@, "copy"@, "-y"@, out],
        spec_convert_video_args(input, s, out)[2] == "-c"@,
        spec_convert_video_args(input, s, out)[3] == "copy"@,
        input != "-vf"@ && input != "-af"@ && out != "-vf"@ && out != "-af"@
            ==> forall|j: int| 0 <= j < spec_convert_video_args(input, s, out).len()
                ==> #[trigger] spec_convert_video_args(input, s, out)[j] != "-vf"@
                    && spec_convert_video_args(input, s, out)[j] != "-af"@,
{
    reveal_strlit("-i");
    reveal_strlit("-c");
    reveal_strlit("-y");
    reveal_strlit("-vf");
    reveal_strlit("-af");
    reveal_strlit("copy");
    let a = spec_convert_video_args(input, s, out);
    assert("-i"@.len() == 2);
    assert("-c"@.len() == 2);
    assert("-y"@.len() == 2);
    assert("copy"@.len() == 4);
    assert("-vf"@.len() == 3);
    assert("-af"@.len() == 3);
    assert(a[0] != "-vf"@ && a[0] != "-af"@);
    assert(a[2] != "-vf"@ && a[2] != "-af"@);
    assert(a[3] != "-vf"@ && a[3] != "-af"@);
    assert(a[4] != "-vf"@ && a[4] != "-af"@);
}

/// Plans a video conversion; see [`spec_convert_video_args`] and
/// [`spec_convert_output`].  Rejects an input path with no file-name
/// component; accepts everything else.
#[verifier::rlimit(60)]
pub fn build_convert_video_plan(
    input_path: &str,
    output_format: &str,
    output_directory: Option<&str>,
    settings: &ConversionSettings,
) -> (r: Result<CommandPlan, MediaError>)
    ensures
        r is Err <==> spec_file_name(input_path@).len() == 0,
        r matches Err(e) ==> e matches MediaError::InvalidRequest(m) && m@ == "Invalid input file"@,
        r matches Ok(p) ==> {
            let out = spec_convert_output(
                input_path@,
                output_format@,
                match output_directory {
                    Some(d) => Some(d@),
                    None => None,
                },
            );
            &&& p.program@ == "ffmpeg"@
            &&& p.output_path@ == out
            &&& p.args_view() == spec_convert_video_args(input_path@, *settings, out)
        },
{
    let name = file_name_of(input_path);
    if name.unicode_len() == 0 {
        return Err(MediaError::InvalidRequest("Invalid input file".to_owned()));
    }
    let stem = stem_of_path(input_path);
    let mut file = stem.to_owned();
    file.append("_converted.");
    file.append(output_format);
    let dir = match output_directory {
        Some(d) => d,
        None => parent_of(input_path),
    };
    let out = join_path(dir, file.as_str());
    proof {
        assert(file@ =~= spec_file_stem(spec_file_name(input_path@)) + "_converted."@
            + output_format@);
    }
    let ghost out_spec = spec_convert_output(
        input_path@,
        output_format@,
        match output_directory {
            Some(d) => Some(d@),
            None => None,
        },
    );
    let mut args: Vec<String> = Vec::new();
    let remux = match settings.fast_mode {
        Some(b) => b,
        None => false,
    } || str_eq(settings.video_codec.as_str(), "copy");
    if remux {
        push_arg(&mut args, "-i");
        push_arg(&mut args, input_path);
        push_arg(&mut args, "-c");
        push_arg(&mut args, "copy");
        push_arg(&mut args, "-y");
        push_arg_string(&mut args, out.clone());
        proof {
            assert(args.deep_view() =~= spec_convert_video_args(input_path@, *settings, out_spec));
        }
    } else {
        push_arg(&mut args, "-i");
        push_arg(&mut args, input_path);
        push_arg(&mut args, "-c:v");
        push_arg_string(&mut args, settings.video_codec.clone());
        push_arg(&mut args, "-c:a");
        push_arg_string(&mut args, settings.audio_codec.clone());
        let ghost head = args.deep_view();
        let accepts = str_eq(settings.video_codec.as_str(), "libx264")
            || str_eq(settings.video_codec.as_str(), "libx265");
        let ghost crf_seg = if settings.crf is Some && spec_codec_accepts_crf(
            settings.video_codec@,
        ) {
            seq!["-crf"@, spec_dec(settings.crf->Some_0 as nat)]
        } else {
            Seq::<Seq<char>>::empty()
        };
        match settings.crf {
            Some(c) if accepts => {
                push_arg(&mut args, "-crf");
                push_arg_string(&mut args, u64_to_dec(c as u64));
            },
            _ => {},
        }
        proof {
            assert(args.deep_view() =~= head + crf_seg);
        }
        let ghost preset_seg = if settings.preset is Some && spec_codec_accepts_crf(
            settings.video_codec@,
        ) {
            seq!["-preset"@, settings.preset->Some_0@]
        } else {
            Seq::<Seq<char>>::empty()
        };
        match &settings.preset {
            Some(p) if accepts => {
                push_arg(&mut args, "-preset");
                push_arg_string(&mut args, p.clone());
            },
            _ => {},
        }
        proof {
            assert(args.deep_view() =~= head + crf_seg + preset_seg);
        }
        let ghost rate_seg = if settings.bitrate is Some && settings.bitrate->Some_0@.len() > 0 {
            seq!["-b:v"@, settings.bitrate->Some_0@]
        } else {
            Seq::<Seq<char>>::empty()
        };
        match &settings.bitrate {
            Some(b) if b.as_str().unicode_len() > 0 => {
                push_arg(&mut args, "-b:v");
                push_arg_string(&mut args, b.clone());
            },
            _ => {},
        }
        proof {
            assert(args.deep_view() =~= head + crf_seg + preset_seg + rate_seg);
        }
        push_arg(&mut args, "-b:a");
        push_arg(&mut args, "128k");
        push_arg(&mut args, "-y");
        push_arg_string(&mut args, out.clone());
        proof {
            assert(args.deep_view() =~= spec_convert_video_args(input_path@, *settings, out_spec));
        }
    }
    Ok(CommandPlan { program: "ffmpeg".to_owned(), args, output_path: out })
}

/// The scale filter for a resize: exact dimensions, or decrease-to-fit
/// when the aspect ratio is to be kept.
pub open spec fn spec_scale_filter(w: nat, h: nat, keep_aspect: bool) -> Seq<char> {
    "scale="@ + spec_dec(w) + ":"@ + spec_dec(h) + (if keep_aspect {
        ":force_original_aspect_ratio=decrease"@
    } else {
        Seq::empty()
    })
}

/// The expected output path of a resize, always beside the input.
pub open spec fn spec_resize_output(input: Seq<char>, w: nat, h: nat, fmt: Seq<char>)
    -> Seq<char> {
    spec_join(
        spec_parent(input),
        spec_file_stem(spec_file_name(input)) + "_resized_"@ + spec_dec(w) + "x"@ + spec_dec(h)
            + "."@ + fmt,
    )
}

/// The argument list of a resize: the scale filter, a CRF derived from the
/// percentage quality, and always re-encoded audio.
pub open spec fn spec_resize_args(
    input: Seq<char>,
    w: nat,
    h: nat,
    keep_aspect: bool,
    quality: nat,
    out: Seq<char>,
) -> Seq<Seq<char>> {
    seq![
        "-i"@, input,
        "-vf"@, spec_scale_filter(w, h, keep_aspect),
        "-c:v"@, "libx264"@,
        "-crf"@, spec_dec(spec_crf_from_quality(quality)),
        "-c:a"@, "aac"@,
        "-b:a"@, "128k"@,
        "-y"@, out,
    ]
}

/// Plans a resize; see [`spec_resize_args`] and [`spec_resize_output`].
/// Rejects an input path with no file-name component.
#[verifier::rlimit(60)]
pub fn build_resize_plan(
    input_path: &str,
    output_width: u32,
    output_height: u32,
    maintain_aspect_ratio: bool,
    quality: u32,
    output_format: &str,
) -> (r: Result<CommandPlan, MediaError>)
    requires
        quality <= 100,
    ensures
        r is Err <==> spec_file_name(input_path@).len() == 0,
        r matches Err(e) ==> e matches MediaError::InvalidRequest(m) && m@ == "Invalid input file"@,
        r matches Ok(p) ==> {
            let out = spec_resize_output(
                input_path@,
                output_width as nat,
                output_height as nat,
                output_format@,
            );
            &&& p.program@ == "ffmpeg"@
            &&& p.output_path@ == out
            &&& p.args_view() == spec_resize_args(
                input_path@,
                output_width as nat,
                output_height as nat,
                maintain_aspect_ratio,
                quality as nat,
                out,
            )
        },
{
    let name = file_name_of(input_path);
    if name.unicode_len() == 0 {
        return Err(MediaError::InvalidRequest("Invalid input file".to_owned()));
    }
    let stem = stem_of_path(input_path);
    let w_dec = u64_to_dec(output_width as u64);
    let h_dec = u64_to_dec(output_height as u64);
    let mut file = stem.to_owned();
    file.append("_resized_");
    file.append(w_dec.as_str());
    file.append("x");
    file.append(h_dec.as_str());
    file.append(".");
    file.append(output_format);
    let out = join_path(parent_of(input_path), file.as_str());
    proof {
        assert(file@ =~= spec_file_stem(spec_file_name(input_path@)) + "_resized_"@
            + spec_dec(output_width as nat) + "x"@ + spec_dec(output_height as nat) + "."@
            + output_format@);
    }
    let mut scale = "scale=".to_owned();
    scale.append(w_dec.as_str());
    scale.append(":");
    scale.append(h_dec.as_str());
    if maintain_aspect_ratio {
        scale.append(":force_original_aspect_ratio=decrease");
    }
    proof {
        assert(scale@ =~= spec_scale_filter(
            output_width as nat,
            output_height as nat,
            maintain_aspect_ratio,
        ));
    }
    let crf = crf_from_quality(quality);
    let mut args: Vec<String> = Vec::new();
    push_arg(&mut args, "-i");
    push_arg(&mut args, input_path);
    push_arg(&mut args, "-vf");
    push_arg_string(&mut args, scale);
    push_arg(&mut args, "-c:v");
    push_arg(&mut args, "libx264");
    push_arg(&mut args, "-crf");
    push_arg_string(&mut args, u64_to_dec(crf as u64));
    push_arg(&mut args, "-c:a");
    push_arg(&mut args, "aac");
    push_arg(&mut args, "-b:a");
    push_arg(&mut args, "128k");
    push_arg(&mut args, "-y");
    push_arg_string(&mut args, out.clone());
    proof {
        assert(args.deep_view() =~= spec_resize_args(
            input_path@,
            output_width as nat,
            output_height as nat,
            maintain_aspect_ratio,
            quality as nat,
            out@,
        ));
    }
    Ok(CommandPlan { program: "ffmpeg".to_owned(), args, output_path: out })
}

/// The expected output path of a time-loop: the input's file name behind a
/// fixed prefix, in the given directory or beside the input when none is
/// given.
pub open spec fn spec_loop_output(input: Seq<char>, outdir: Seq<char>) -> Seq<char> {
    let dir = if outdir.len() == 0 {
        spec_parent(input)
    } else {
        outdir
    };
    spec_join(dir, "Loop_"@ + spec_file_name(input))
}

/// The argument list of a time-loop: `loops - 1` extra repeats of the
/// input, a duration cap at the target, and a stream copy with no
/// re-encoding.
pub open spec fn spec_loop_args(
    input: Seq<char>,
    loops: nat,
    target_ms: nat,
    out: Seq<char>,
) -> Seq<Seq<char>>
    recommends
        loops >= 1,
{
    seq![
        "-stream_loop"@, spec_dec((loops - 1) as nat),
        "-i"@, input,
        "-t"@, spec_fmt_ms(target_ms),
        "-c"@, "copy"@,
        "-y"@, out,
    ]
}

/// Plans a time-loop.  The request is valid only when the probed source
/// duration is nonzero and the target is strictly longer than the source,
/// i.e. at least two plays are needed; a request needing one play is
/// rejected rather than run as a no-op.
pub fn build_loop_plan(
    input_path: &str,
    output_directory: &str,
    source_ms: u64,
    target_ms: u64,
) -> (r: Result<CommandPlan, MediaError>)
    ensures
        ({
            let loops = spec_loops_needed(source_ms as nat, target_ms as nat);
            &&& (r is Ok <==> loops >= 2 && spec_file_name(input_path@).len() > 0)
            &&& (loops == 0 ==> (r matches Err(e) && e matches MediaError::InvalidRequest(m)
                && m@ == "Invalid file duration"@))
            &&& (loops == 1 ==> (r matches Err(e) && e matches MediaError::InvalidRequest(m)
                && m@ == "Target duration must be longer than original"@))
            &&& (loops >= 2 && spec_file_name(input_path@).len() == 0 ==> (r matches Err(e)
                && e matches MediaError::InvalidRequest(m) && m@ == "Invalid input file name"@))
            &&& (r matches Ok(p) ==> {
                &&& p.program@ == "ffmpeg"@
                &&& p.output_path@ == spec_loop_output(input_path@, output_directory@)
                &&& p.args_view() == spec_loop_args(
                    input_path@,
                    loops,
                    target_ms as nat,
                    spec_loop_output(input_path@, output_directory@),
                )
            })
        }),
{
    let loops = loops_needed(source_ms, target_ms);
    if loops == 0 {
        return Err(MediaError::InvalidRequest("Invalid file duration".to_owned()));
    }
    if loops == 1 {
        return Err(MediaError::InvalidRequest(
            "Target duration must be longer than original".to_owned(),
        ));
    }
    let name = file_name_of(input_path);
    if name.unicode_len() == 0 {
        return Err(MediaError::InvalidRequest("Invalid input file name".to_owned()));
    }
    let mut file = "Loop_".to_owned();
    file.append(name);
    let dir = if output_directory.unicode_len() == 0 {
        parent_of(input_path)
    } else {
        output_directory
    };
    let out = join_path(dir, file.as_str());
    let mut args: Vec<String> = Vec::new();
    push_arg(&mut args, "-stream_loop");
    push_arg_string(&mut args, u64_to_dec(loops - 1));
    push_arg(&mut args, "-i");
    push_arg(&mut args, input_path);
    push_arg(&mut args, "-t");
    push_arg_string(&mut args, format_ms(target_ms));
    push_arg(&mut args, "-c");
    push_arg(&mut args, "copy");
    push_arg(&mut args, "-y");
    push_arg_string(&mut args, out.clone());
    proof {
        assert(args.deep_view() =~= spec_loop_args(
            input_path@,
            spec_loops_needed(source_ms as nat, target_ms as nat),
            target_ms as nat,
            spec_loop_output(input_path@, output_directory@),
        ));
    }
    Ok(CommandPlan { program: "ffmpeg".to_owned(), args, output_path: out })
}

/// Output-path synthesis is idempotent: repeated requests with the same
/// inputs name the same path, for every operation.  (Pre-creating the
/// named directory is the caller's side effect, outside this layer.)
pub proof fn lemma_output_path_repeatable(
    input1: Seq<char>,
    fmt1: Seq<char>,
    outdir_opt1: Option<Seq<char>>,
    outdir1: Seq<char>,
    w1: nat,
    h1: nat,
    input2: Seq<char>,
    fmt2: Seq<char>,
    outdir_opt2: Option<Seq<char>>,
    outdir2: Seq<char>,
    w2: nat,
    h2: nat,
)
    requires
        input1 == input2,
        fmt1 == fmt2,
        outdir_opt1 == outdir_opt2,
        outdir1 == outdir2,
        w1 == w2,
        h1 == h2,
    ensures
        spec_convert_output(input1, fmt1, outdir_opt1) == spec_convert_output(
            input2,
            fmt2,
            outdir_opt2,
        ),
        spec_resize_output(input1, w1, h1, fmt1) == spec_resize_output(input2, w2, h2, fmt2),
        spec_loop_output(input1, outdir1) == spec_loop_output(input2, outdir2),
        crate::noise::spec_denoise_output(input1, outdir1) == crate::noise::spec_denoise_output(
            input2,
            outdir2,
        ),
{
}

/// Settings for an audio conversion.
pub struct AudioConversionSettings {
    pub codec: String,
    pub bitrate: Option<String>,
    pub sample_rate: Option<u32>,
    pub channels: Option<u32>,
    pub compression: Option<u32>,
    pub extract_from_video: Option<bool>,
}

/// The optional middle of an audio conversion: each parameter that is
/// present contributes its pair (bitrate, sample rate, channel count, the
/// FLAC-only compression level), and extracting from a video source
/// contributes the drop-video flag.
pub open spec fn spec_audio_option_args(s: AudioConversionSettings) -> Seq<Seq<char>> {
    (if s.bitrate is Some && s.bitrate->Some_0@.len() > 0 {
        seq!["-b:a"@, s.bitrate->Some_0@]
    } else {
        Seq::empty()
    })
    + (if s.sample_rate is Some {
        seq!["-ar"@, spec_dec(s.sample_rate->Some_0 as nat)]
    } else {
        Seq::empty()
    })
    + (if s.channels is Some {
        seq!["-ac"@, spec_dec(s.channels->Some_0 as nat)]
    } else {
        Seq::empty()
    })
    + (if s.codec@ == "flac"@ && s.compression is Some {
        seq!["-compression_level"@, spec_dec(s.compression->Some_0 as nat)]
    } else {
        Seq::empty()
    })
    + (if s.extract_from_video == Some(true) {
        seq!["-vn"@]
    } else {
        Seq::empty()
    })
}

/// The argument list of an audio conversion: the codec, the optional
/// parameters of [`spec_audio_option_args`], the overwrite flag, and the
/// output path.
pub open spec fn spec_convert_audio_args(
    input: Seq<char>,
    s: AudioConversionSettings,
    out: Seq<char>,
) -> Seq<Seq<char>> {
    seq!["-i"@, input, "-c:a"@, s.codec@] + spec_audio_option_args(s) + seq!["-y"@, out]
}

/// Plans an audio conversion; see [`spec_convert_audio_args`] and
/// [`spec_convert_output`].  Rejects an input path with no file-name
/// component.
#[verifier::rlimit(100)]
pub fn build_convert_audio_plan(
    input_path: &str,
    output_format: &str,
    output_directory: Option<&str>,
    settings: &AudioConversionSettings,
) -> (r: Result<CommandPlan, MediaError>)
    ensures
        r is Err <==> spec_file_name(input_path@).len() == 0,
        r matches Err(e) ==> e matches MediaError::InvalidRequest(m) && m@ == "Invalid input file"@,
        r matches Ok(p) ==> {
            let out = spec_convert_output(
                input_path@,
                output_format@,
                match output_directory {
                    Some(d) => Some(d@),
                    None => None,
                },
            );
            &&& p.program@ == "ffmpeg"@
            &&& p.output_path@ == out
            &&& p.args_view() == spec_convert_audio_args(input_path@, *settings, out)
        },
{
    let name = file_name_of(input_path);
    if name.unicode_len() == 0 {
        return Err(MediaError::InvalidRequest("Invalid input file".to_owned()));
    }
    let stem = stem_of_path(input_path);
    let mut file = stem.to_owned();
    file.append("_converted.");
    file.append(output_format);
    let dir = match output_directory {
        Some(d) => d,
        None => parent_of(input_path),
    };
    let out = join_path(dir, file.as_str());
    proof {
        assert(file@ =~= spec_file_stem(spec_file_name(input_path@)) + "_converted."@
            + output_format@);
    }
    let mut args: Vec<String> = Vec::new();
    push_arg(&mut args, "-i");
    push_arg(&mut args, input_path);
    push_arg(&mut args, "-c:a");
    push_arg_string(&mut args, settings.codec.clone());
    push_audio_options(&mut args, settings);
    push_arg(&mut args, "-y");
    push_arg_string(&mut args, out.clone());
    proof {
        assert(args.deep_view() =~= spec_convert_audio_args(input_path@, *settings, out@));
    }
    Ok(CommandPlan { program: "ffmpeg".to_owned(), args, output_path: out })
}

/// Appends the optional audio parameters; see [`spec_audio_option_args`].
#[verifier::rlimit(100)]
fn push_audio_options(args: &mut Vec<String>, settings: &AudioConversionSettings)
    ensures
        final(args).deep_view() == old(args).deep_view() + spec_audio_option_args(*settings),
{
    let ghost head = args.deep_view();
    let ghost rate_seg = if settings.bitrate is Some && settings.bitrate->Some_0@.len() > 0 {
        seq!["-b:a"@, settings.bitrate->Some_0@]
    } else {
        Seq::<Seq<char>>::empty()
    };
    match &settings.bitrate {
        Some(b) if b.as_str().unicode_len() > 0 => {
            push_arg(args, "-b:a");
            push_arg_string(args, b.clone());
            proof {
                assert(args.deep_view() =~= head + rate_seg);
            }
        },
        _ => {
            proof {
                assert(args.deep_view() =~= head + rate_seg);
            }
        },
    }
    let ghost a1 = args.deep_view();
    let ghost sr_seg = if settings.sample_rate is Some {
        seq!["-ar"@, spec_dec(settings.sample_rate->Some_0 as nat)]
    } else {
        Seq::<Seq<char>>::empty()
    };
    match settings.sample_rate {
        Some(sr) => {
            push_arg(args, "-ar");
            push_arg_string(args, u64_to_dec(sr as u64));
            proof {
                assert(args.deep_view() =~= a1 + sr_seg);
            }
        },
        None => {
            proof {
                assert(args.deep_view() =~= a1 + sr_seg);
            }
        },
    }
    let ghost a2 = args.deep_view();
    let ghost ch_seg = if settings.channels is Some {
        seq!["-ac"@, spec_dec(settings.channels->Some_0 as nat)]
    } else {
        Seq::<Seq<char>>::empty()
    };
    match settings.channels {
        Some(ch) => {
            push_arg(args, "-ac");
            push_arg_string(args, u64_to_dec(ch as u64));
            proof {
                assert(args.deep_view() =~= a2 + ch_seg);
            }
        },
        None => {
            proof {
                assert(args.deep_view() =~= a2 + ch_seg);
            }
        },
    }
    let ghost a3 = args.deep_view();
    let ghost comp_seg = if settings.codec@ == "flac"@ && settings.compression is Some {
        seq!["-compression_level"@, spec_dec(settings.compression->Some_0 as nat)]
    } else {
        Seq::<Seq<char>>::empty()
    };
    if str_eq(settings.codec.as_str(), "flac") {
        match settings.compression {
            Some(c) => {
                push_arg(args, "-compression_level");
                push_arg_string(args, u64_to_dec(c as u64));
            },
            None => {},
        }
    }
    proof {
        assert(args.deep_view() =~= a3 + comp_seg);
    }
    let ghost a4 = args.deep_view();
    let ghost vn_seg = if settings.extract_from_video == Some(true) {
        seq!["-vn"@]
    } else {
        Seq::<Seq<char>>::empty()
    };
    match settings.extract_from_video {
        Some(true) => {
            push_arg(args, "-vn");
            proof {
                assert(args.deep_view() =~= a4 + vn_seg);
            }
        },
        _ => {
            proof {
                assert(args.deep_view() =~= a4 + vn_seg);
            }
        },
    }
    proof {
        assert(args.deep_view() =~= head + rate_seg + sr_seg + ch_seg + comp_seg + vn_seg);
        assert(args.deep_view() =~= head + spec_audio_option_args(*settings));
    }
}

} // verus!
