//! Bringing samples from one rate to another by linear interpolation, in
//! integer arithmetic throughout.

use vstd::prelude::*;

verus! {

/// Number of samples that `n` samples at rate `from` become at rate `to`:
/// the same duration, rounded up to a whole sample.
pub open spec fn resampled_len(n: nat, from: u32, to: u32) -> nat {
    ((n * to + from - 1) / (from as int)) as nat
}

/// The `j`-th output sample: the input read at position `j * from / to`,
/// interpolated linearly between the two input samples around that position
/// and rounded down. Past the last input sample the last one is held.
pub open spec fn resampled_at(samples: Seq<i16>, from: u32, to: u32, j: int) -> int {
    let position = j * from;
    let index = position / (to as int);
    let part = position % (to as int);
    let left = samples[index] as int;
    let right = if index + 1 < samples.len() {
        samples[index + 1] as int
    } else {
        left
    };
    left + ((right - left) * part) / (to as int)
}

/// `samples`, recorded at rate `from`, as they sound at rate `to`.
pub open spec fn resampled(samples: Seq<i16>, from: u32, to: u32) -> Seq<i16> {
    Seq::new(
        resampled_len(samples.len(), from, to),
        |j: int| resampled_at(samples, from, to, j) as i16,
    )
}

/// Every output position reads inside the input.
proof fn lemma_read_position(n: nat, from: u32, to: u32, j: int)
    requires
        from > 0,
        to > 0,
        0 <= j < resampled_len(n, from, to),
    ensures
        0 <= (j * from) / (to as int) < n,
        0 <= (j * from) % (to as int) < to,
{
    let f = from as int;
    let t = to as int;
    let total = n * t + f - 1;
    let m = total / f;
    assert(m * f <= total) by (nonlinear_arith)
        requires
            m == total / f,
            f > 0,
            total >= 0,
    ;
    assert(j * f <= m * f - f) by (nonlinear_arith)
        requires
            0 <= j <= m - 1,
            f > 0,
    ;
    let position = j * f;
    assert(0 <= position / t < n && 0 <= position % t < t) by (nonlinear_arith)
        requires
            0 <= position < n * t,
            t > 0,
    ;
}

/// The interpolated value, computed on samples shifted up to be nonnegative.
proof fn lemma_interpolate_shifted(left: int, right: int, part: int, t: int)
    requires
        -32768 <= left <= 32767,
        -32768 <= right <= 32767,
        0 <= part < t,
    ensures
        ((left + 32768) * (t - part) + (right + 32768) * part) / t - 32768 == left + ((right
            - left) * part) / t,
        -32768 <= left + ((right - left) * part) / t <= 32767,
        0 <= (left + 32768) * (t - part) <= 65535 * t,
        0 <= (right + 32768) * part <= 65535 * t,
        0 <= (left + 32768) * (t - part) + (right + 32768) * part <= 65535 * t,
{
    let x = (right - left) * part;
    let shift = left + 32768;
    assert((left + 32768) * (t - part) + (right + 32768) * part == x + shift * t)
        by (nonlinear_arith)
        requires
            x == (right - left) * part,
            shift == left + 32768,
    ;
    vstd::arithmetic::div_mod::lemma_hoist_over_denominator(x, shift, t as nat);
    assert(0 <= (left + 32768) * (t - part) <= 65535 * (t - part)) by (nonlinear_arith)
        requires
            0 <= left + 32768 <= 65535,
            0 <= part < t,
    ;
    assert(0 <= (right + 32768) * part <= 65535 * part) by (nonlinear_arith)
        requires
            0 <= right + 32768 <= 65535,
            0 <= part < t,
    ;
    let sum = x + shift * t;
    assert(0 <= sum / t <= 65535) by (nonlinear_arith)
        requires
            0 <= sum <= 65535 * t,
            t > 0,
    ;
}

/// Computes `resampled_len`. There is no result when a rate is zero or when
/// the number does not fit in a `usize`, so that no vector could hold the
/// samples.
pub fn resampled_count(n: usize, from: u32, to: u32) -> (count: Option<usize>)
    ensures
        count is Some <==> from > 0 && to > 0 && resampled_len(n as nat, from, to) <= usize::MAX,
        count matches Some(m) ==> m == resampled_len(n as nat, from, to),
{
    if from == 0 || to == 0 {
        return None;
    }
    assert(n * to + from - 1 <= 0xffff_ffff_ffff_ffff * 0x1_0000_0000) by (nonlinear_arith)
        requires
            0 <= n <= 0xffff_ffff_ffff_ffff,
            0 < to <= 0xffff_ffff,
            0 < from <= 0xffff_ffff,
    ;
    let total: u128 = (n as u128) * (to as u128) + (from as u128 - 1);
    let wanted: u128 = total / (from as u128);
    if wanted > usize::MAX as u128 {
        None
    } else {
        Some(wanted as usize)
    }
}

/// Brings `samples`, recorded at rate `from`, to rate `to` by linear
/// interpolation. There is no result when a rate is zero or when the result
/// would hold more samples than a vector can.
pub fn resample_linear(samples: &Vec<i16>, from: u32, to: u32) -> (out: Option<Vec<i16>>)
    ensures
        out is Some <==> from > 0 && to > 0 && resampled_len(samples@.len(), from, to)
            <= usize::MAX,
        out matches Some(v) ==> v@ == resampled(samples@, from, to),
{
    let n: usize = samples.len();
    let m: usize = match resampled_count(n, from, to) {
        Some(m) => m,
        None => {
            return None;
        },
    };
    let mut out: Vec<i16> = Vec::new();
    let mut j: usize = 0;
    while j < m
        invariant
            j <= m,
            from > 0,
            to > 0,
            n == samples@.len(),
            m == resampled_len(samples@.len(), from, to),
            out@.len() == j,
            forall|k: int| 0 <= k < j ==> out@[k] == resampled_at(samples@, from, to, k) as i16,
        decreases m - j,
    {
        proof {
            lemma_read_position(n as nat, from, to, j as int);
            assert(j * from <= 0xffff_ffff_ffff_ffff * 0x1_0000_0000) by (nonlinear_arith)
                requires
                    0 <= j <= 0xffff_ffff_ffff_ffff,
                    0 < from <= 0xffff_ffff,
            ;
        }
        let position: u128 = (j as u128) * (from as u128);
        let index: usize = (position / (to as u128)) as usize;
        let part: u64 = (position % (to as u128)) as u64;
        let left: i16 = samples[index];
        let right: i16 = if index + 1 < n {
            samples[index + 1]
        } else {
            left
        };
        proof {
            lemma_interpolate_shifted(left as int, right as int, part as int, to as int);
        }
        let low: u64 = (left as i32 + 32768) as u64;
        let high: u64 = (right as i32 + 32768) as u64;
        let mixed: u64 = (low * (to as u64 - part) + high * part) / (to as u64);
        let value: i16 = (mixed as i32 - 32768) as i16;
        assert(value == resampled_at(samples@, from, to, j as int));
        out.push(value);
        j = j + 1;
    }
    assert(out@ =~= resampled(samples@, from, to));
    Some(out)
}

/// More samples in never means fewer samples out.
pub proof fn lemma_resampled_len_grows(shorter: nat, longer: nat, from: u32, to: u32)
    requires
        shorter <= longer,
        from > 0,
    ensures
        resampled_len(shorter, from, to) <= resampled_len(longer, from, to),
{
    let a = shorter * to + from - 1;
    let b = longer * to + from - 1;
    let f = from as int;
    assert(a <= b) by (nonlinear_arith)
        requires
            shorter <= longer,
            a == shorter * to + from - 1,
            b == longer * to + from - 1,
            to >= 0,
    ;
    assert(a / f <= b / f) by (nonlinear_arith)
        requires
            0 <= a <= b,
            f > 0,
    ;
}

/// No output sample lies outside the two input samples it was read between,
/// so resampling never overshoots and never leaves the 16-bit range.
pub proof fn law_resampling_stays_between_neighbours(
    samples: Seq<i16>,
    from: u32,
    to: u32,
    j: int,
)
    requires
        from > 0,
        to > 0,
        0 <= j < resampled_len(samples.len(), from, to),
    ensures
        ({
            let index = (j * from) / (to as int);
            let left = samples[index] as int;
            let right = if index + 1 < samples.len() {
                samples[index + 1] as int
            } else {
                left
            };
            &&& 0 <= index < samples.len()
            &&& left <= right ==> left <= resampled_at(samples, from, to, j) <= right
            &&& right <= left ==> right <= resampled_at(samples, from, to, j) <= left
            &&& resampled(samples, from, to)[j] == resampled_at(samples, from, to, j)
        }),
{
    lemma_read_position(samples.len(), from, to, j);
    let t = to as int;
    let index = (j * from) / t;
    let part = (j * from) % t;
    let left = samples[index] as int;
    let right = if index + 1 < samples.len() {
        samples[index + 1] as int
    } else {
        left
    };
    let gap = right - left;
    if gap >= 0 {
        assert(0 <= (gap * part) / t <= gap) by (nonlinear_arith)
            requires
                gap >= 0,
                0 <= part < t,
        ;
    } else {
        assert(gap <= (gap * part) / t <= 0) by (nonlinear_arith)
            requires
                gap < 0,
                0 <= part < t,
        ;
    }
}

/// Resampling to the rate the samples already have changes nothing.
pub proof fn law_same_rate_changes_nothing(samples: Seq<i16>, rate: u32)
    requires
        rate > 0,
    ensures
        resampled(samples, rate, rate) == samples,
{
    let n = samples.len() as int;
    let r = rate as int;
    assert((n * r + r - 1) / r == n) by (nonlinear_arith)
        requires
            n >= 0,
            r > 0,
    ;
    assert forall|j: int| 0 <= j < n implies resampled_at(samples, rate, rate, j)
        == samples[j] by {
        assert((j * r) / r == j && (j * r) % r == 0) by (nonlinear_arith)
            requires
                j >= 0,
                r > 0,
        ;
        let left = samples[j] as int;
        let right = if j + 1 < n {
            samples[j + 1] as int
        } else {
            left
        };
        assert(((right - left) * 0) / r == 0) by (nonlinear_arith)
            requires
                r > 0,
        ;
    }
    assert(resampled(samples, rate, rate) =~= samples);
}

} // verus!
