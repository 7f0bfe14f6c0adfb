//! Probe client: turns the external prober's structured report into a
//! [`ProbeResult`].  Durations are parsed into whole milliseconds and
//! frame rates into thousandths per second; stream fields default to zero
//! or `unknown` when absent, but a report without a recoverable duration
//! is an error of its own, distinct from a malformed report.

use vstd::prelude::*;
use vstd::string::StrSliceExecFns;
use vstd::string::StringExecFns;

use crate::jsonio::spec_json_ok;
use crate::jsonio::json_as_array;
use crate::jsonio::json_as_str;
use crate::jsonio::json_as_u64;
use crate::jsonio::json_get;
use crate::jsonio::json_parse;
use crate::plan::CommandPlan;
use crate::plan::MediaError;
use crate::plan::push_arg;
use crate::text::all_digits;
use crate::text::all_digits_str;
use crate::text::digit_val;
use crate::text::digits_val;
use crate::text::is_digit;
use crate::text::spec_run_until;
use crate::text::digit_of_char;
use crate::text::lemma_run_until_le;
use crate::text::parse_u64_digits;
use crate::text::run_until_str;
use crate::text::str_eq;

verus! {

/// What a successful probe reports.  The duration is in whole
/// milliseconds; the frame rate is in thousandths of frames per second;
/// video-stream fields are zero or `unknown` for audio-only input.
pub struct ProbeResult {
    pub duration_ms: u64,
    pub width: u64,
    pub height: u64,
    pub fps_milli: u64,
    pub codec: String,
    pub bitrate_bps: u32,
}

/// The milliseconds represented by up to three leading fractional digits.
pub open spec fn spec_frac_ms(f: Seq<char>) -> nat {
    if f.len() >= 3 {
        digits_val(f.subrange(0, 3))
    } else if f.len() == 2 {
        digits_val(f) * 10
    } else if f.len() == 1 {
        digits_val(f) * 100
    } else {
        0
    }
}

/// A non-negative decimal of the form `digits`, `digits.digits`,
/// `.digits` or `digits.`, read as whole milliseconds with fractional
/// digits beyond the third discarded; anything else, or a value that does
/// not fit, is rejected.
pub open spec fn spec_parse_ms(s: Seq<char>) -> Option<u64> {
    let d = spec_run_until(s, '.');
    let whole = s.subrange(0, d as int);
    let frac = if d == s.len() {
        Seq::empty()
    } else {
        s.subrange(d + 1 as int, s.len() as int)
    };
    if (whole.len() > 0 || frac.len() > 0) && all_digits(whole) && all_digits(frac)
        && digits_val(whole) * 1000 + spec_frac_ms(frac) <= u64::MAX {
        Some((digits_val(whole) * 1000 + spec_frac_ms(frac)) as u64)
    } else {
        None
    }
}

fn frac_ms_exec(f: &str) -> (r: u64)
    requires
        all_digits(f@),
    ensures
        r == spec_frac_ms(f@),
        r <= 999,
{
    let m = f.unicode_len();
    if m == 0 {
        0
    } else {
        let d0 = match digit_of_char(f.get_char(0)) {
            Some(d) => d,
            None => 0,
        };
        proof {
            assert(is_digit(f@[0]));
            assert(digits_val(f@.subrange(0, 1)) == digit_val(f@[0])) by {
                assert(f@.subrange(0, 1).drop_last() =~= Seq::<char>::empty());
                assert(f@.subrange(0, 1).last() == f@[0]);
                assert(digits_val(Seq::<char>::empty()) == 0);
            };
        }
        if m == 1 {
            proof {
                assert(f@.subrange(0, 1) =~= f@);
            }
            d0 * 100
        } else {
            let d1 = match digit_of_char(f.get_char(1)) {
                Some(d) => d,
                None => 0,
            };
            proof {
                assert(is_digit(f@[1]));
                assert(digits_val(f@.subrange(0, 2)) == digit_val(f@[0]) * 10 + digit_val(
                    f@[1],
                )) by {
                    assert(f@.subrange(0, 2).drop_last() =~= f@.subrange(0, 1));
                    assert(f@.subrange(0, 2).last() == f@[1]);
                };
            }
            if m == 2 {
                proof {
                    assert(f@.subrange(0, 2) =~= f@);
                }
                (d0 * 10 + d1) * 10
            } else {
                let d2 = match digit_of_char(f.get_char(2)) {
                    Some(d) => d,
                    None => 0,
                };
                proof {
                    assert(is_digit(f@[2]));
                    assert(digits_val(f@.subrange(0, 3)) == (digit_val(f@[0]) * 10 + digit_val(
                        f@[1],
                    )) * 10 + digit_val(f@[2])) by {
                        assert(f@.subrange(0, 3).drop_last() =~= f@.subrange(0, 2));
                        assert(f@.subrange(0, 3).last() == f@[2]);
                    };
                }
                (d0 * 10 + d1) * 10 + d2
            }
        }
    }
}

/// Parses a duration text into milliseconds; see [`spec_parse_ms`].
pub fn parse_duration_ms(s: &str) -> (r: Option<u64>)
    ensures
        r == spec_parse_ms(s@),
{
    let n = s.unicode_len();
    let d = run_until_str(s, '.');
    proof {
        lemma_run_until_le(s@, '.');
    }
    let whole = s.substring_char(0, d);
    let frac = if d == n {
        s.substring_char(n, n)
    } else {
        s.substring_char(d + 1, n)
    };
    proof {
        assert(d == n ==> frac@ =~= Seq::<char>::empty());
    }
    if whole.unicode_len() == 0 && frac.unicode_len() == 0 {
        return None;
    }
    if !all_digits_str(whole) {
        return None;
    }
    if !all_digits_str(frac) {
        return None;
    }
    let wv: u64 = if whole.unicode_len() == 0 {
        0
    } else {
        match parse_u64_digits(whole) {
            Some(v) => v,
            None => {
                return None;
            },
        }
    };
    let fv = frac_ms_exec(frac);
    match wv.checked_mul(1000) {
        None => None,
        Some(t) => {
            match t.checked_add(fv) {
                None => None,
                Some(v) => Some(v),
            }
        },
    }
}

/// A frame-rate text read into thousandths of frames per second: a
/// rational `num/den` computed in integer thousandths (a zero or
/// unreadable denominator gives zero and one respectively, an unreadable
/// numerator zero), or a plain decimal when no slash is present; the
/// result saturates at the largest representable value.
pub open spec fn spec_fps_milli(s: Seq<char>) -> nat {
    let k = spec_run_until(s, '/');
    if k == s.len() {
        match spec_parse_ms(s) {
            Some(v) => v as nat,
            None => 0,
        }
    } else {
        let num = s.subrange(0, k as int);
        let den = s.subrange(k + 1 as int, s.len() as int);
        match crate::text::spec_parse_u64(num) {
            None => 0,
            Some(nv) => {
                let dv: int = match crate::text::spec_parse_u64(den) {
                    Some(x) => x as int,
                    None => 1,
                };
                if dv == 0 {
                    0
                } else if nv * 1000 / dv > u64::MAX {
                    u64::MAX as nat
                } else {
                    (nv * 1000 / dv) as nat
                }
            },
        }
    }
}

/// Parses a frame-rate text; see [`spec_fps_milli`].
pub fn parse_fps_milli(s: &str) -> (r: u64)
    ensures
        r == spec_fps_milli(s@),
{
    let n = s.unicode_len();
    let k = run_until_str(s, '/');
    proof {
        lemma_run_until_le(s@, '/');
    }
    if k == n {
        match parse_duration_ms(s) {
            Some(v) => v,
            None => 0,
        }
    } else {
        let num = s.substring_char(0, k);
        let den = s.substring_char(k + 1, n);
        match parse_u64_digits(num) {
            None => 0,
            Some(nv) => {
                let dv: u64 = match parse_u64_digits(den) {
                    Some(x) => x,
                    None => 1,
                };
                if dv == 0 {
                    0
                } else {
                    let prod: u128 = (nv as u128) * 1000;
                    let q: u128 = prod / (dv as u128);
                    if q > u64::MAX as u128 {
                        u64::MAX
                    } else {
                        q as u64
                    }
                }
            },
        }
    }
}

/// The bit rate of the report: the value of a digit string that fits an
/// unsigned 32-bit integer, and zero otherwise.
pub open spec fn spec_parse_bitrate(s: Seq<char>) -> u32 {
    match crate::text::spec_parse_u64(s) {
        Some(v) => if v <= u32::MAX {
            v as u32
        } else {
            0
        },
        None => 0,
    }
}

/// The duration of an optional duration field, when it parses.
pub open spec fn spec_duration_of(d: Option<Seq<char>>) -> Option<u64> {
    match d {
        Some(s) => spec_parse_ms(s),
        None => None,
    }
}

/// Assembles a [`ProbeResult`] from the plain fields carried out of the
/// report.  A missing or unreadable duration is the only error; every
/// stream field falls back to zero or `unknown` instead.
pub fn assemble_probe_result(
    duration_field: Option<&str>,
    width: Option<u64>,
    height: Option<u64>,
    fps_field: Option<&str>,
    codec_field: Option<&str>,
    bitrate_field: Option<&str>,
) -> (r: Result<ProbeResult, MediaError>)
    ensures
        ({
            let dur = spec_duration_of(
                match duration_field {
                    Some(s) => Some(s@),
                    None => None,
                },
            );
            &&& (r is Ok <==> dur is Some)
            &&& (r matches Err(e) ==> e is DurationUnavailable)
            &&& (r matches Ok(p) ==> {
                &&& p.duration_ms == dur->Some_0
                &&& p.width == (match width {
                    Some(w) => w,
                    None => 0,
                })
                &&& p.height == (match height {
                    Some(h) => h,
                    None => 0,
                })
                &&& p.fps_milli == (match fps_field {
                    Some(f) => spec_fps_milli(f@),
                    None => 0,
                })
                &&& p.codec@ == (match codec_field {
                    Some(c) => c@,
                    None => "unknown"@,
                })
                &&& p.bitrate_bps == (match bitrate_field {
                    Some(b) => spec_parse_bitrate(b@),
                    None => 0,
                })
            })
        }),
{
    let duration_ms = match duration_field {
        Some(s) => {
            match parse_duration_ms(s) {
                Some(v) => v,
                None => {
                    return Err(MediaError::DurationUnavailable);
                },
            }
        },
        None => {
            return Err(MediaError::DurationUnavailable);
        },
    };
    let width_v: u64 = match width {
        Some(w) => w,
        None => 0,
    };
    let height_v: u64 = match height {
        Some(h) => h,
        None => 0,
    };
    let fps_milli = match fps_field {
        Some(f) => parse_fps_milli(f),
        None => 0,
    };
    let codec = match codec_field {
        Some(c) => c.to_owned(),
        None => "unknown".to_owned(),
    };
    let bitrate_bps = match bitrate_field {
        Some(b) => {
            match parse_u64_digits(b) {
                Some(v) => {
                    if v <= 0xffff_ffff {
                        v as u32
                    } else {
                        0
                    }
                },
                None => 0,
            }
        },
        None => 0,
    };
    Ok(ProbeResult {
        duration_ms,
        width: width_v,
        height: height_v,
        fps_milli,
        codec,
        bitrate_bps,
    })
}

/// First element of `arr` whose `codec_type` field is the string `video`.
fn find_video_stream<'a>(arr: &'a Vec<serde_json::Value>, i: usize) -> (r: Option<
    &'a serde_json::Value,
>)
    requires
        i <= arr@.len(),
    decreases arr@.len() - i,
{
    if i == arr.len() {
        None
    } else {
        let s = &arr[i];
        let is_video = match json_get(s, "codec_type") {
            Some(t) => {
                match json_as_str(t) {
                    Some(ts) => str_eq(ts, "video"),
                    None => false,
                }
            },
            None => false,
        };
        if is_video {
            Some(s)
        } else {
            find_video_stream(arr, i + 1)
        }
    }
}

/// Parses the prober's report.  A text that is not well-formed JSON is
/// `ParseFailed`; a well-formed report never is, and fails only when no
/// duration can be recovered, which is `DurationUnavailable`.  The
/// assembled fields follow [`assemble_probe_result`].
pub fn parse_probe_report(json: &str) -> (r: Result<ProbeResult, MediaError>)
    ensures
        !spec_json_ok(json@) ==> (r matches Err(e) && e is ParseFailed),
        spec_json_ok(json@) ==> !(r matches Err(e) && e is ParseFailed),
        spec_json_ok(json@) && r is Err ==> (r matches Err(e) && e is DurationUnavailable),
{
    let v = match json_parse(json) {
        None => {
            return Err(MediaError::ParseFailed);
        },
        Some(v) => v,
    };
    let duration_field: Option<&str> = match json_get(&v, "format") {
        Some(fv) => {
            match json_get(fv, "duration") {
                Some(dv) => json_as_str(dv),
                None => None,
            }
        },
        None => None,
    };
    let bitrate_field: Option<&str> = match json_get(&v, "format") {
        Some(fv) => {
            match json_get(fv, "bit_rate") {
                Some(bv) => json_as_str(bv),
                None => None,
            }
        },
        None => None,
    };
    let stream: Option<&serde_json::Value> = match json_get(&v, "streams") {
        Some(sv) => {
            match json_as_array(sv) {
                Some(arr) => find_video_stream(arr, 0),
                None => None,
            }
        },
        None => None,
    };
    let width = match stream {
        Some(st) => {
            match json_get(st, "width") {
                Some(w) => json_as_u64(w),
                None => None,
            }
        },
        None => None,
    };
    let height = match stream {
        Some(st) => {
            match json_get(st, "height") {
                Some(h) => json_as_u64(h),
                None => None,
            }
        },
        None => None,
    };
    let fps_field: Option<&str> = match stream {
        Some(st) => {
            match json_get(st, "r_frame_rate") {
                Some(f) => json_as_str(f),
                None => None,
            }
        },
        None => None,
    };
    let codec_field: Option<&str> = match stream {
        Some(st) => {
            match json_get(st, "codec_name") {
                Some(c) => json_as_str(c),
                None => None,
            }
        },
        None => None,
    };
    assemble_probe_result(duration_field, width, height, fps_field, codec_field, bitrate_field)
}

/// The prober invocation for one input path: quiet, a structured report,
/// format and stream sections both requested.
pub fn build_probe_plan(input_path: &str) -> (r: CommandPlan)
    ensures
        r.program@ == "ffprobe"@,
        r.args_view() == seq![
            "-v"@, "quiet"@,
            "-print_format"@, "json"@,
            "-show_format"@, "-show_streams"@,
            input_path@,
        ],
        r.output_path@ == Seq::<char>::empty(),
{
    let mut args: Vec<String> = Vec::new();
    push_arg(&mut args, "-v");
    push_arg(&mut args, "quiet");
    push_arg(&mut args, "-print_format");
    push_arg(&mut args, "json");
    push_arg(&mut args, "-show_format");
    push_arg(&mut args, "-show_streams");
    push_arg(&mut args, input_path);
    proof {
        assert(args.deep_view() =~= seq![
            "-v"@, "quiet"@,
            "-print_format"@, "json"@,
            "-show_format"@, "-show_streams"@,
            input_path@,
        ]);
    }
    CommandPlan { program: "ffprobe".to_owned(), args, output_path: String::new() }
}

/// The transcoder's availability check.
pub fn build_ffmpeg_version_plan() -> (r: CommandPlan)
    ensures
        r.program@ == "ffmpeg"@,
        r.args_view() == seq!["-version"@],
        r.output_path@ == Seq::<char>::empty(),
{
    let mut args: Vec<String> = Vec::new();
    push_arg(&mut args, "-version");
    proof {
        assert(args.deep_view() =~= seq!["-version"@]);
    }
    CommandPlan { program: "ffmpeg".to_owned(), args, output_path: String::new() }
}

} // verus!
