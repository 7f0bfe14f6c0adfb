use mediaplan::noise::algorithm_from_tag;
use mediaplan::noise::build_noise_reduction_plan;
use mediaplan::noise::NoiseAlgorithm;
use mediaplan::noise::NoiseReductionSettings;

fn strs(v: &[&str]) -> Vec<String> {
    v.iter().map(|s| s.to_string()).collect()
}

fn settings(algorithm: NoiseAlgorithm) -> NoiseReductionSettings {
    NoiseReductionSettings {
        algorithm,
        noise_reduction_db: 12,
        noise_floor_db: -30,
        highpass_hz: None,
        lowpass_hz: None,
        notch_hz: None,
    }
}

#[test]
fn combined_chain_order_and_single_argument() {
    let s = NoiseReductionSettings {
        highpass_hz: Some(100),
        lowpass_hz: Some(8000),
        ..settings(NoiseAlgorithm::Combined)
    };
    let p = build_noise_reduction_plan("rec/take.wav", "out", &s).unwrap();
    assert_eq!(p.program, "ffmpeg");
    assert_eq!(
        p.args,
        strs(&[
            "-i", "rec/take.wav",
            "-af", "highpass=f=100,afftdn=nr=12:nf=-30,lowpass=f=8000",
            "-y", "out/take_denoised.wav",
        ])
    );
}

#[test]
fn combined_without_notch_has_no_notch_stage() {
    let s = NoiseReductionSettings {
        highpass_hz: Some(100),
        lowpass_hz: Some(8000),
        ..settings(NoiseAlgorithm::Combined)
    };
    let p = build_noise_reduction_plan("t.wav", "o", &s).unwrap();
    assert!(!p.args[3].contains("bandreject"));
}

#[test]
fn afftdn_alone() {
    let p = build_noise_reduction_plan("t.wav", "o", &settings(NoiseAlgorithm::Afftdn)).unwrap();
    assert_eq!(p.args, strs(&["-i", "t.wav", "-af", "afftdn=nr=12:nf=-30", "-y", "o/t_denoised.wav"]));
}

#[test]
fn anlmdn_uses_floor_magnitude() {
    let p = build_noise_reduction_plan("t.wav", "o", &settings(NoiseAlgorithm::Anlmdn)).unwrap();
    assert_eq!(p.args[3], "anlmdn=s=12:o=30");
}

#[test]
fn hum_removal_chains_highpass_and_notch_once() {
    let s = NoiseReductionSettings {
        highpass_hz: Some(60),
        notch_hz: Some(50),
        ..settings(NoiseAlgorithm::HumRemovalPreset)
    };
    let p = build_noise_reduction_plan("t.wav", "o", &s).unwrap();
    assert_eq!(p.args[3], "highpass=f=60,bandreject=f=50:w=10");
    assert_eq!(p.args[3].matches("bandreject").count(), 1);
}

#[test]
fn independent_notch_appended_for_other_algorithms() {
    let s = NoiseReductionSettings {
        notch_hz: Some(50),
        ..settings(NoiseAlgorithm::Afftdn)
    };
    let p = build_noise_reduction_plan("t.wav", "o", &s).unwrap();
    assert_eq!(p.args[3], "afftdn=nr=12:nf=-30,bandreject=f=50:w=10");
}

#[test]
fn unknown_algorithm_falls_back_to_primary_denoise() {
    assert_eq!(algorithm_from_tag("mystery"), NoiseAlgorithm::Other);
    let p = build_noise_reduction_plan("t.wav", "o", &settings(NoiseAlgorithm::Other)).unwrap();
    assert_eq!(p.args[3], "afftdn=nr=12:nf=-30");
}

#[test]
fn algorithm_tags_map_to_variants() {
    assert_eq!(algorithm_from_tag("afftdn"), NoiseAlgorithm::Afftdn);
    assert_eq!(algorithm_from_tag("anlmdn"), NoiseAlgorithm::Anlmdn);
    assert_eq!(algorithm_from_tag("highpass"), NoiseAlgorithm::Highpass);
    assert_eq!(algorithm_from_tag("combined"), NoiseAlgorithm::Combined);
    assert_eq!(algorithm_from_tag("afftdn+highpass+lowpass"), NoiseAlgorithm::SpeechPreset);
    assert_eq!(algorithm_from_tag("highpass+notch"), NoiseAlgorithm::HumRemovalPreset);
}

#[test]
fn highpass_without_frequency_emits_no_filter_flag() {
    let p = build_noise_reduction_plan("t.wav", "o", &settings(NoiseAlgorithm::Highpass)).unwrap();
    assert_eq!(p.args, strs(&["-i", "t.wav", "-y", "o/t_denoised.wav"]));
}

#[test]
fn denoise_output_keeps_extension_or_defaults_to_wav() {
    let p = build_noise_reduction_plan("rec/take.flac", "o", &settings(NoiseAlgorithm::Afftdn))
        .unwrap();
    assert_eq!(p.output_path, "o/take_denoised.flac");
    let q = build_noise_reduction_plan("rec/take", "o", &settings(NoiseAlgorithm::Afftdn)).unwrap();
    assert_eq!(q.output_path, "o/take_denoised.wav");
}

#[test]
fn speech_preset_matches_combined_shape() {
    let s = NoiseReductionSettings {
        highpass_hz: Some(200),
        lowpass_hz: Some(3000),
        ..settings(NoiseAlgorithm::SpeechPreset)
    };
    let p = build_noise_reduction_plan("talk.wav", "o", &s).unwrap();
    assert_eq!(p.args[3], "highpass=f=200,afftdn=nr=12:nf=-30,lowpass=f=3000");
}
