//! Derived-value calculators: loop-count arithmetic and the quality-to-CRF
//! mapping.  Durations are carried as whole milliseconds.

use vstd::prelude::*;
use vstd::arithmetic::div_mod::lemma_basic_div;
use vstd::arithmetic::div_mod::lemma_fundamental_div_mod;
use vstd::arithmetic::div_mod::lemma_fundamental_div_mod_converse_div;

verus! {

/// Ceiling division written two ways: the overflow-safe form used by the
/// executable code equals the direct `(t + s - 1) / s` form of the spec.
proof fn lemma_ceil_div(t: int, s: int)
    requires
        s > 0,
        t > 0,
    ensures
        (t - 1) / s + 1 == (t + s - 1) / s,
{
    let q = (t - 1) / s;
    let r = (t - 1) % s;
    lemma_fundamental_div_mod(t - 1, s);
    assert((q + 1) * s + r == q * s + s + r) by (nonlinear_arith);
    assert(t + s - 1 == (q + 1) * s + r);
    lemma_fundamental_div_mod_converse_div(t + s - 1, s, q + 1, r);
}

/// Total number of plays of a clip of `source_ms` milliseconds needed to
/// reach at least `target_ms` milliseconds: `0` when the source length is
/// unknown (zero), otherwise the ceiling of `target_ms / source_ms`.
/// A result of `1` means no repetition is needed.
pub open spec fn spec_loops_needed(source_ms: nat, target_ms: nat) -> nat {
    if source_ms == 0 {
        0
    } else {
        ((target_ms + source_ms - 1) / (source_ms as int)) as nat
    }
}

/// Loop count for the time-loop operation; see [`spec_loops_needed`].
pub fn loops_needed(source_ms: u64, target_ms: u64) -> (r: u64)
    ensures
        r == spec_loops_needed(source_ms as nat, target_ms as nat),
{
    if source_ms == 0 {
        0
    } else if target_ms == 0 {
        proof {
            lemma_basic_div(source_ms - 1, source_ms as int);
        }
        0
    } else {
        let q: u64 = (target_ms - 1) / source_ms;
        proof {
            lemma_ceil_div(target_ms as int, source_ms as int);
        }
        q + 1
    }
}

/// A clip already as long as the target needs exactly one play, i.e. no
/// repetition; the caller layer treats such a request as invalid rather
/// than running it.
pub proof fn lemma_loops_equal_duration(d: nat)
    requires
        d > 0,
    ensures
        spec_loops_needed(d, d) == 1,
{
    lemma_ceil_div(d as int, d as int);
    lemma_basic_div(d - 1, d as int);
}

/// Constant-rate-factor derived from a percentage quality: the requested
/// quality is inverted linearly onto the codec's 0..=51 scale, so quality
/// 100 gives CRF 0 and quality 0 gives CRF 51.
pub open spec fn spec_crf_from_quality(quality: nat) -> nat
    recommends
        quality <= 100,
{
    (51 - (quality * 51) / 100) as nat
}

/// CRF for a percentage quality; see [`spec_crf_from_quality`].
pub fn crf_from_quality(quality: u32) -> (r: u32)
    requires
        quality <= 100,
    ensures
        r == spec_crf_from_quality(quality as nat),
        r <= 51,
{
    proof {
        assert((quality * 51) / 100 <= 51) by (nonlinear_arith)
            requires
                quality <= 100,
        ;
    }
    51 - (quality * 51) / 100
}

/// The quality-to-CRF mapping is monotonically non-increasing: asking for
/// more quality never yields a larger CRF.
pub proof fn lemma_crf_monotone(q1: nat, q2: nat)
    requires
        q1 <= q2 <= 100,
    ensures
        spec_crf_from_quality(q2) <= spec_crf_from_quality(q1),
{
    assert((q1 * 51) / 100 <= (q2 * 51) / 100) by (nonlinear_arith)
        requires
            q1 <= q2,
    ;
    assert((q2 * 51) / 100 <= 51) by (nonlinear_arith)
        requires
            q2 <= 100,
    ;
}

} // verus!
