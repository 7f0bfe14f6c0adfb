//! Noise-reduction plan builder: an ordered audio filter chain derived
//! from a tagged algorithm, joined into a single filter argument.  The
//! stage order is fixed per algorithm: high-pass first (when configured),
//! then the primary denoise filter, then low-pass (when configured); the
//! hum-removal preset instead chains high-pass with a band-reject notch.
//! An independent notch stage is appended only when a notch frequency is
//! configured and the algorithm does not already denote notch handling.

use vstd::prelude::*;
use vstd::string::StrSliceExecFns;
use vstd::string::StringExecFns;

use crate::paths::spec_extension;
use crate::paths::spec_file_name;
use crate::paths::spec_file_stem;
use crate::paths::spec_join;
use crate::paths::extension_of_path;
use crate::paths::file_name_of;
use crate::paths::join_path;
use crate::paths::stem_of_path;
use crate::plan::CommandPlan;
use crate::plan::MediaError;
use crate::plan::push_arg;
use crate::plan::push_arg_string;
use crate::text::spec_dec;
use crate::text::spec_dec_signed;
use crate::text::spec_join_comma;
use crate::text::i64_to_dec;
use crate::text::join_comma;
use crate::text::str_eq;
use crate::text::u64_to_dec;

verus! {

/// The denoising algorithm, as a closed set of variants rather than a free
/// string; unrecognised tags map to [`NoiseAlgorithm::Other`], which falls
/// back to the primary denoise filter alone.
#[derive(Clone, Copy, PartialEq, Eq, Structural, Debug)]
pub enum NoiseAlgorithm {
    Afftdn,
    Anlmdn,
    Highpass,
    Combined,
    SpeechPreset,
    HumRemovalPreset,
    Other,
}

/// Noise-reduction settings.  Decibel amounts are whole dB (the floor is
/// usually negative); frequencies are whole hertz.
pub struct NoiseReductionSettings {
    pub algorithm: NoiseAlgorithm,
    pub noise_reduction_db: i32,
    pub noise_floor_db: i32,
    pub highpass_hz: Option<u32>,
    pub lowpass_hz: Option<u32>,
    pub notch_hz: Option<u32>,
}

/// Which variant each algorithm tag of the external interface denotes.
pub open spec fn spec_algorithm_from_tag(tag: Seq<char>) -> NoiseAlgorithm {
    if tag == "afftdn"@ {
        NoiseAlgorithm::Afftdn
    } else if tag == "anlmdn"@ {
        NoiseAlgorithm::Anlmdn
    } else if tag == "highpass"@ {
        NoiseAlgorithm::Highpass
    } else if tag == "combined"@ {
        NoiseAlgorithm::Combined
    } else if tag == "afftdn+highpass+lowpass"@ {
        NoiseAlgorithm::SpeechPreset
    } else if tag == "highpass+notch"@ {
        NoiseAlgorithm::HumRemovalPreset
    } else {
        NoiseAlgorithm::Other
    }
}

/// Maps an algorithm tag to its variant; see [`spec_algorithm_from_tag`].
pub fn algorithm_from_tag(tag: &str) -> (r: NoiseAlgorithm)
    ensures
        r == spec_algorithm_from_tag(tag@),
{
    if str_eq(tag, "afftdn") {
        NoiseAlgorithm::Afftdn
    } else if str_eq(tag, "anlmdn") {
        NoiseAlgorithm::Anlmdn
    } else if str_eq(tag, "highpass") {
        NoiseAlgorithm::Highpass
    } else if str_eq(tag, "combined") {
        NoiseAlgorithm::Combined
    } else if str_eq(tag, "afftdn+highpass+lowpass") {
        NoiseAlgorithm::SpeechPreset
    } else if str_eq(tag, "highpass+notch") {
        NoiseAlgorithm::HumRemovalPreset
    } else {
        NoiseAlgorithm::Other
    }
}

/// The FFT denoise stage, parameterised by reduction amount and floor.
pub open spec fn spec_afftdn_filter(nr: int, nf: int) -> Seq<char> {
    "afftdn=nr="@ + spec_dec_signed(nr) + ":nf="@ + spec_dec_signed(nf)
}

/// The non-local-means denoise stage; its overlap takes the floor's
/// magnitude.
pub open spec fn spec_anlmdn_filter(nr: int, nf: int) -> Seq<char> {
    "anlmdn=s="@ + spec_dec_signed(nr) + ":o="@ + spec_dec(if nf < 0 {
        (-nf) as nat
    } else {
        nf as nat
    })
}

/// The high-pass stage.
pub open spec fn spec_highpass_filter(hz: nat) -> Seq<char> {
    "highpass=f="@ + spec_dec(hz)
}

/// The low-pass stage.
pub open spec fn spec_lowpass_filter(hz: nat) -> Seq<char> {
    "lowpass=f="@ + spec_dec(hz)
}

/// The band-reject notch stage, with a fixed width of ten hertz.
pub open spec fn spec_bandreject_filter(hz: nat) -> Seq<char> {
    "bandreject=f="@ + spec_dec(hz) + ":w=10"@
}

/// The optional high-pass stage of `s`.
pub open spec fn spec_hp_seg(s: NoiseReductionSettings) -> Seq<Seq<char>> {
    if s.highpass_hz is Some {
        seq![spec_highpass_filter(s.highpass_hz->Some_0 as nat)]
    } else {
        Seq::empty()
    }
}

/// The optional low-pass stage of `s`.
pub open spec fn spec_lp_seg(s: NoiseReductionSettings) -> Seq<Seq<char>> {
    if s.lowpass_hz is Some {
        seq![spec_lowpass_filter(s.lowpass_hz->Some_0 as nat)]
    } else {
        Seq::empty()
    }
}

/// The optional notch stage of `s`.
pub open spec fn spec_notch_seg(s: NoiseReductionSettings) -> Seq<Seq<char>> {
    if s.notch_hz is Some {
        seq![spec_bandreject_filter(s.notch_hz->Some_0 as nat)]
    } else {
        Seq::empty()
    }
}

/// The ordered filter stages of a noise-reduction request; see the module
/// documentation for the per-algorithm order.
pub open spec fn spec_noise_filters(s: NoiseReductionSettings) -> Seq<Seq<char>> {
    let afftdn = spec_afftdn_filter(s.noise_reduction_db as int, s.noise_floor_db as int);
    let base = match s.algorithm {
        NoiseAlgorithm::Afftdn => seq![afftdn],
        NoiseAlgorithm::Anlmdn => seq![
            spec_anlmdn_filter(s.noise_reduction_db as int, s.noise_floor_db as int),
        ],
        NoiseAlgorithm::Highpass => spec_hp_seg(s),
        NoiseAlgorithm::Combined => spec_hp_seg(s) + seq![afftdn] + spec_lp_seg(s),
        NoiseAlgorithm::SpeechPreset => spec_hp_seg(s) + seq![afftdn] + spec_lp_seg(s),
        NoiseAlgorithm::HumRemovalPreset => spec_hp_seg(s) + spec_notch_seg(s),
        NoiseAlgorithm::Other => seq![afftdn],
    };
    base + (if s.notch_hz is Some && !(s.algorithm is HumRemovalPreset) {
        spec_notch_seg(s)
    } else {
        Seq::empty()
    })
}

/// The expected output path of a noise reduction: the input's stem plus a
/// fixed suffix, keeping the input's extension (or a waveform default), in
/// the given directory.
pub open spec fn spec_denoise_output(input: Seq<char>, outdir: Seq<char>) -> Seq<char> {
    let ext = match spec_extension(spec_file_name(input)) {
        Some(e) => e,
        None => "wav"@,
    };
    spec_join(outdir, spec_file_stem(spec_file_name(input)) + "_denoised."@ + ext)
}

/// The argument list of a noise reduction: the input, the filter chain as
/// one comma-joined argument (omitted when no stage is configured), the
/// overwrite flag, and the output path.
pub open spec fn spec_noise_args(
    input: Seq<char>,
    s: NoiseReductionSettings,
    out: Seq<char>,
) -> Seq<Seq<char>> {
    seq!["-i"@, input]
    + (if spec_noise_filters(s).len() > 0 {
        seq!["-af"@, spec_join_comma(spec_noise_filters(s))]
    } else {
        Seq::empty()
    })
    + seq!["-y"@, out]
}

fn afftdn_filter(nr: i32, nf: i32) -> (r: String)
    ensures
        r@ == spec_afftdn_filter(nr as int, nf as int),
{
    let mut f = "afftdn=nr=".to_owned();
    f.append(i64_to_dec(nr as i64).as_str());
    f.append(":nf=");
    f.append(i64_to_dec(nf as i64).as_str());
    proof {
        assert(f@ =~= spec_afftdn_filter(nr as int, nf as int));
    }
    f
}

fn anlmdn_filter(nr: i32, nf: i32) -> (r: String)
    ensures
        r@ == spec_anlmdn_filter(nr as int, nf as int),
{
    let mut f = "anlmdn=s=".to_owned();
    f.append(i64_to_dec(nr as i64).as_str());
    f.append(":o=");
    let mag: u64 = if nf < 0 {
        (-(nf as i64)) as u64
    } else {
        nf as u64
    };
    f.append(u64_to_dec(mag).as_str());
    proof {
        assert(f@ =~= spec_anlmdn_filter(nr as int, nf as int));
    }
    f
}

fn freq_filter(prefix: &str, hz: u32) -> (r: String)
    ensures
        r@ == prefix@ + spec_dec(hz as nat),
{
    let mut f = prefix.to_owned();
    f.append(u64_to_dec(hz as u64).as_str());
    f
}

fn bandreject_filter(hz: u32) -> (r: String)
    ensures
        r@ == spec_bandreject_filter(hz as nat),
{
    let mut f = "bandreject=f=".to_owned();
    f.append(u64_to_dec(hz as u64).as_str());
    f.append(":w=10");
    proof {
        assert(f@ =~= spec_bandreject_filter(hz as nat));
    }
    f
}

/// Builds the ordered filter stages; see [`spec_noise_filters`].
pub fn build_noise_filters(s: &NoiseReductionSettings) -> (r: Vec<String>)
    ensures
        r.deep_view() == spec_noise_filters(*s),
{
    let mut filters: Vec<String> = Vec::new();
    match s.algorithm {
        NoiseAlgorithm::Afftdn => {
            push_arg_string(&mut filters, afftdn_filter(s.noise_reduction_db, s.noise_floor_db));
        },
        NoiseAlgorithm::Anlmdn => {
            push_arg_string(&mut filters, anlmdn_filter(s.noise_reduction_db, s.noise_floor_db));
        },
        NoiseAlgorithm::Highpass => {
            match s.highpass_hz {
                Some(hz) => {
                    push_arg_string(&mut filters, freq_filter("highpass=f=", hz));
                },
                None => {},
            }
        },
        NoiseAlgorithm::Combined | NoiseAlgorithm::SpeechPreset => {
            match s.highpass_hz {
                Some(hz) => {
                    push_arg_string(&mut filters, freq_filter("highpass=f=", hz));
                },
                None => {},
            }
            push_arg_string(&mut filters, afftdn_filter(s.noise_reduction_db, s.noise_floor_db));
            match s.lowpass_hz {
                Some(hz) => {
                    push_arg_string(&mut filters, freq_filter("lowpass=f=", hz));
                },
                None => {},
            }
        },
        NoiseAlgorithm::HumRemovalPreset => {
            match s.highpass_hz {
                Some(hz) => {
                    push_arg_string(&mut filters, freq_filter("highpass=f=", hz));
                },
                None => {},
            }
            match s.notch_hz {
                Some(hz) => {
                    push_arg_string(&mut filters, bandreject_filter(hz));
                },
                None => {},
            }
        },
        NoiseAlgorithm::Other => {
            push_arg_string(&mut filters, afftdn_filter(s.noise_reduction_db, s.noise_floor_db));
        },
    }
    let is_hum = match s.algorithm {
        NoiseAlgorithm::HumRemovalPreset => true,
        _ => false,
    };
    if !is_hum {
        match s.notch_hz {
            Some(hz) => {
                push_arg_string(&mut filters, bandreject_filter(hz));
            },
            None => {},
        }
    }
    proof {
        assert(filters.deep_view() =~= spec_noise_filters(*s));
    }
    filters
}

/// Plans a noise reduction; see [`spec_noise_args`] and
/// [`spec_denoise_output`].  Rejects an input path with no file-name
/// component.
pub fn build_noise_reduction_plan(
    input_path: &str,
    output_dir: &str,
    settings: &NoiseReductionSettings,
) -> (r: Result<CommandPlan, MediaError>)
    ensures
        r is Err <==> spec_file_name(input_path@).len() == 0,
        r matches Err(e) ==> e matches MediaError::InvalidRequest(m) && m@ == "Invalid input file"@,
        r matches Ok(p) ==> {
            let out = spec_denoise_output(input_path@, output_dir@);
            &&& p.program@ == "ffmpeg"@
            &&& p.output_path@ == out
            &&& p.args_view() == spec_noise_args(input_path@, *settings, out)
        },
{
    let name = file_name_of(input_path);
    if name.unicode_len() == 0 {
        return Err(MediaError::InvalidRequest("Invalid input file".to_owned()));
    }
    let stem = stem_of_path(input_path);
    let mut file = stem.to_owned();
    file.append("_denoised.");
    match extension_of_path(input_path) {
        Some(e) => {
            file.append(e);
        },
        None => {
            file.append("wav");
        },
    }
    let out = join_path(output_dir, file.as_str());
    proof {
        let ext = match spec_extension(spec_file_name(input_path@)) {
            Some(e) => e,
            None => "wav"@,
        };
        assert(file@ =~= spec_file_stem(spec_file_name(input_path@)) + "_denoised."@ + ext);
    }
    let filters = build_noise_filters(settings);
    let mut args: Vec<String> = Vec::new();
    push_arg(&mut args, "-i");
    push_arg(&mut args, input_path);
    let ghost head = args.deep_view();
    let ghost af_seg = if spec_noise_filters(*settings).len() > 0 {
        seq!["-af"@, spec_join_comma(spec_noise_filters(*settings))]
    } else {
        Seq::<Seq<char>>::empty()
    };
    if filters.len() > 0 {
        push_arg(&mut args, "-af");
        push_arg_string(&mut args, join_comma(&filters));
    }
    proof {
        assert(args.deep_view() =~= head + af_seg);
    }
    push_arg(&mut args, "-y");
    push_arg_string(&mut args, out.clone());
    proof {
        assert(args.deep_view() =~= spec_noise_args(input_path@, *settings, out@));
    }
    Ok(CommandPlan { program: "ffmpeg".to_owned(), args, output_path: out })
}

} // verus!
