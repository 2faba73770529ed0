use crate::error::Error;
use vstd::prelude::*;

verus! {

/// Overhead is given in basis points: hundredths of a percent.
pub const BASIS_POINTS_PER_UNIT: u64 = 10000;

/// Kibibits in one kibibyte.
pub const KIBIBITS_PER_KIB: u64 = 8;

/// The size budget in kibibits, scaled by the basis-point denominator.
pub open spec fn scaled_budget(target_size_kib: int) -> int {
    target_size_kib * 8 * 10000
}

/// One second of payload at one kbps with overhead, scaled like `scaled_budget`.
pub open spec fn scaled_rate(duration_secs: int, overhead_bp: int) -> int {
    duration_secs * (10000 + overhead_bp)
}

/// Division that truncates toward zero.
pub open spec fn trunc_div(n: int, d: int) -> int {
    if n >= 0 {
        n / d
    } else {
        -((-n) / d)
    }
}

/// `((budget / duration) - (1 + mux) * audio) / (1 + mux)`, with the overhead factor
/// `1 + mux = (10000 + overhead_bp) / 10000`, computed exactly and truncated toward zero.
pub open spec fn solved_bitrate(
    duration_secs: int,
    target_size_kib: int,
    audio_kbps: int,
    overhead_bp: int,
) -> int {
    trunc_div(
        scaled_budget(target_size_kib) - audio_kbps * scaled_rate(duration_secs, overhead_bp),
        scaled_rate(duration_secs, overhead_bp),
    )
}

/// Inputs the solver accepts: a positive duration and a positive target size.
pub open spec fn valid_solver_input(duration_secs: int, target_size_kib: int) -> bool {
    duration_secs > 0 && target_size_kib > 0
}

/// Solves for the video bitrate in kbps that, together with `audio_bitrate` kbps and
/// `muxing_overhead_bp` basis points of container overhead on the payload, fills
/// `target_size_kib` kibibytes over `duration_secs` seconds. The result may be zero or
/// negative when the target cannot be met.
pub fn calculate_video_bitrate(
    duration_secs: u64,
    target_size_kib: u32,
    audio_bitrate: u16,
    muxing_overhead_bp: u32,
) -> (r: Result<i64, Error>)
    ensures
        r is Err <==> !valid_solver_input(duration_secs as int, target_size_kib as int),
        r is Err ==> r == Err::<i64, Error>(Error::InvalidRequest),
        r matches Ok(v) ==> v == solved_bitrate(
            duration_secs as int,
            target_size_kib as int,
            audio_bitrate as int,
            muxing_overhead_bp as int,
        ),
{
    if duration_secs == 0 || target_size_kib == 0 {
        return Err(Error::InvalidRequest);
    }
    let factor: u128 = BASIS_POINTS_PER_UNIT as u128 + muxing_overhead_bp as u128;
    assert(duration_secs as int * factor <= 0xffff_ffff_ffff_ffff * (10000 + 0xffff_ffff)) by (nonlinear_arith)
        requires
            factor <= 10000 + 0xffff_ffff,
            duration_secs <= 0xffff_ffff_ffff_ffff,
    ;
    let den: u128 = duration_secs as u128 * factor;
    let scale: u128 = KIBIBITS_PER_KIB as u128 * BASIS_POINTS_PER_UNIT as u128;
    assert(target_size_kib as int * scale <= 0xffff_ffff * 80000) by (nonlinear_arith)
        requires
            scale == 80000,
            target_size_kib <= 0xffff_ffff,
    ;
    let budget: u128 = target_size_kib as u128 * scale;
    assert(budget == scaled_budget(target_size_kib as int)) by (nonlinear_arith)
        requires
            scale == 80000,
            budget == target_size_kib as int * scale,
    ;
    assert(den == scaled_rate(duration_secs as int, muxing_overhead_bp as int));
    assert(audio_bitrate as u128 * den <= 0xffff * (0xffff_ffff_ffff_ffff * (10000 + 0xffff_ffff))) by (nonlinear_arith)
        requires
            den == duration_secs as int * factor,
            factor <= 10000 + 0xffff_ffff,
            audio_bitrate <= 0xffff,
            duration_secs <= 0xffff_ffff_ffff_ffff,
    ;
    let audio: u128 = audio_bitrate as u128 * den;
    assert(den >= 10000) by (nonlinear_arith)
        requires
            den == duration_secs as int * factor,
            duration_secs >= 1,
            factor >= 10000,
    ;
    if budget >= audio {
        let q: u128 = (budget - audio) / den;
        assert(q <= budget / 10000) by {
            vstd::arithmetic::div_mod::lemma_div_is_ordered((budget - audio) as int, budget as int, den as int);
            vstd::arithmetic::div_mod::lemma_div_is_ordered_by_denominator(budget as int, 10000, den as int);
        }
        Ok(q as i64)
    } else {
        let q: u128 = (audio - budget) / den;
        assert(q <= audio_bitrate) by {
            vstd::arithmetic::div_mod::lemma_div_is_ordered((audio - budget) as int, audio as int, den as int);
            vstd::arithmetic::div_mod::lemma_div_by_multiple(audio_bitrate as int, den as int);
        }
        Ok(-(q as i64))
    }
}

/// Solves the video bitrate and refuses a result that the encoder cannot use: a zero
/// or negative bitrate means the target size cannot be met.
pub fn solve_video_bitrate(
    duration_secs: u64,
    target_size_kib: u32,
    audio_bitrate: u16,
    muxing_overhead_bp: u32,
) -> (r: Result<u64, Error>)
    ensures
        !valid_solver_input(duration_secs as int, target_size_kib as int) ==> r == Err::<u64, Error>(
            Error::InvalidRequest,
        ),
        valid_solver_input(duration_secs as int, target_size_kib as int) ==> {
            let v = solved_bitrate(
                duration_secs as int,
                target_size_kib as int,
                audio_bitrate as int,
                muxing_overhead_bp as int,
            );
            &&& v <= 0 ==> r == Err::<u64, Error>(Error::InfeasibleTarget)
            &&& v > 0 ==> (r matches Ok(x) && x == v)
        },
{
    match calculate_video_bitrate(duration_secs, target_size_kib, audio_bitrate, muxing_overhead_bp) {
        Err(e) => Err(e),
        Ok(v) => {
            if v <= 0 {
                Err(Error::InfeasibleTarget)
            } else {
                Ok(v as u64)
            }
        },
    }
}

/// The solved bitrate, fed back into the size model
/// `duration * (video + audio) * (1 + mux)`, never exceeds the budget by one kbps of
/// video or more. When the exact solution is non-negative or a whole number it stays
/// within the budget, and one more kbps of video would exceed it; a negative
/// fractional solution is truncated upward and may overshoot by less than one kbps.
pub proof fn lemma_solution_fits_budget(
    duration_secs: int,
    target_size_kib: int,
    audio_kbps: int,
    overhead_bp: int,
)
    requires
        duration_secs > 0,
        target_size_kib > 0,
        audio_kbps >= 0,
        overhead_bp >= 0,
    ensures
        ({
            let v = solved_bitrate(duration_secs, target_size_kib, audio_kbps, overhead_bp);
            let budget = scaled_budget(target_size_kib);
            let den = scaled_rate(duration_secs, overhead_bp);
            let n = budget - audio_kbps * den;
            &&& duration_secs * (v + audio_kbps) * (10000 + overhead_bp) < budget + duration_secs * (10000
                + overhead_bp)
            &&& (n >= 0 || n % den == 0) ==> duration_secs * (v + audio_kbps) * (10000 + overhead_bp)
                <= budget
            &&& (n >= 0 || n % den == 0) ==> budget < duration_secs * (v + audio_kbps + 1) * (10000
                + overhead_bp)
        }),
{
    let den = scaled_rate(duration_secs, overhead_bp);
    let budget = scaled_budget(target_size_kib);
    let n = budget - audio_kbps * den;
    let v = solved_bitrate(duration_secs, target_size_kib, audio_kbps, overhead_bp);
    assert(den > 0) by (nonlinear_arith)
        requires
            den == duration_secs * (10000 + overhead_bp),
            duration_secs > 0,
            overhead_bp >= 0,
    ;
    vstd::arithmetic::div_mod::lemma_fundamental_div_mod(n, den);
    if n >= 0 {
        vstd::arithmetic::div_mod::lemma_mod_bound(n, den);
        assert(den * v <= n < den * v + den);
    } else {
        vstd::arithmetic::div_mod::lemma_fundamental_div_mod(-n, den);
        vstd::arithmetic::div_mod::lemma_mod_bound(-n, den);
        let q = (-n) / den;
        assert(den * v == -(den * q)) by (nonlinear_arith)
            requires
                v == -q,
        ;
        assert(n < den * v + den);
        if n % den == 0 {
            let q0 = n / den;
            assert(-n == (-q0) * den + 0) by (nonlinear_arith)
                requires
                    n == den * q0 + 0,
            ;
            vstd::arithmetic::div_mod::lemma_fundamental_div_mod_converse(-n, den, -q0, 0);
            assert(den * v == n) by (nonlinear_arith)
                requires
                    v == -(-q0),
                    n == den * q0,
            ;
        }
    }
    assert(duration_secs * (v + audio_kbps) * (10000 + overhead_bp) == den * v + audio_kbps * den)
        by (nonlinear_arith)
        requires
            den == duration_secs * (10000 + overhead_bp),
    ;
    assert(duration_secs * (v + audio_kbps + 1) * (10000 + overhead_bp) == den * v + audio_kbps * den + den)
        by (nonlinear_arith)
        requires
            den == duration_secs * (10000 + overhead_bp),
    ;
}

/// Without audio the whole budget goes to video: the bitrate is the budget per
/// second divided by the overhead factor, rounded down.
pub proof fn lemma_no_audio_takes_whole_budget(duration_secs: int, target_size_kib: int, overhead_bp: int)
    requires
        duration_secs > 0,
        target_size_kib > 0,
        overhead_bp >= 0,
    ensures
        solved_bitrate(duration_secs, target_size_kib, 0, overhead_bp) == (target_size_kib * 8 * 10000) / (
        duration_secs * (10000 + overhead_bp)),
{
}

} // verus!
