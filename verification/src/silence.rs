//! Telling sound from silence, and cutting the silence off both ends of a
//! run of samples.

use vstd::prelude::*;

verus! {

/// How far a sample is from zero.
pub open spec fn magnitude(sample: i16) -> int {
    if sample < 0 {
        -(sample as int)
    } else {
        sample as int
    }
}

/// A sample counts as sound when its magnitude is above the threshold.
pub open spec fn is_loud(sample: i16, threshold: u16) -> bool {
    magnitude(sample) > threshold
}

/// No sample of `samples` is loud.
pub open spec fn all_silent(samples: Seq<i16>, threshold: u16) -> bool {
    forall|i: int| 0 <= i < samples.len() ==> !is_loud(#[trigger] samples[i], threshold)
}

/// Number of silent samples before the first loud one.
pub open spec fn silent_prefix_len(samples: Seq<i16>, threshold: u16) -> nat
    decreases samples.len(),
{
    if samples.len() == 0 || is_loud(samples.first(), threshold) {
        0
    } else {
        1 + silent_prefix_len(samples.drop_first(), threshold)
    }
}

/// Number of silent samples after the last loud one.
pub open spec fn silent_suffix_len(samples: Seq<i16>, threshold: u16) -> nat
    decreases samples.len(),
{
    if samples.len() == 0 || is_loud(samples.last(), threshold) {
        0
    } else {
        1 + silent_suffix_len(samples.drop_last(), threshold)
    }
}

/// `samples` without its leading and trailing silence: the span from the
/// first loud sample to the last one, or nothing when no sample is loud.
pub open spec fn trimmed(samples: Seq<i16>, threshold: u16) -> Seq<i16> {
    let lead = silent_prefix_len(samples, threshold);
    let trail = silent_suffix_len(samples, threshold);
    if lead + trail >= samples.len() {
        Seq::empty()
    } else {
        samples.subrange(lead as int, samples.len() - trail)
    }
}

fn loud(sample: i16, threshold: u16) -> (r: bool)
    ensures
        r == is_loud(sample, threshold),
{
    let wide: i32 = sample as i32;
    let size: i32 = if wide < 0 {
        -wide
    } else {
        wide
    };
    size > threshold as i32
}

proof fn lemma_silent_prefix(samples: Seq<i16>, threshold: u16, start: int)
    requires
        0 <= start <= samples.len(),
        all_silent(samples.subrange(0, start), threshold),
        start < samples.len() ==> is_loud(samples[start], threshold),
    ensures
        silent_prefix_len(samples, threshold) == start,
    decreases start,
{
    if start == 0 {
    } else {
        assert(samples.subrange(0, start)[0] == samples[0]);
        let rest = samples.drop_first();
        assert forall|i: int| 0 <= i < start - 1 implies !is_loud(
            #[trigger] rest.subrange(0, start - 1)[i],
            threshold,
        ) by {
            assert(rest.subrange(0, start - 1)[i] == samples.subrange(0, start)[i + 1]);
        }
        lemma_silent_prefix(rest, threshold, start - 1);
    }
}

proof fn lemma_silent_suffix(samples: Seq<i16>, threshold: u16, end: int)
    requires
        0 <= end <= samples.len(),
        all_silent(samples.subrange(end, samples.len() as int), threshold),
        0 < end ==> is_loud(samples[end - 1], threshold),
    ensures
        silent_suffix_len(samples, threshold) == samples.len() - end,
    decreases samples.len() - end,
{
    if end == samples.len() {
    } else {
        let n = samples.len() as int;
        assert(samples.subrange(end, n)[n - 1 - end] == samples[n - 1]);
        let rest = samples.drop_last();
        assert forall|i: int| 0 <= i < n - 1 - end implies !is_loud(
            #[trigger] rest.subrange(end, n - 1)[i],
            threshold,
        ) by {
            assert(rest.subrange(end, n - 1)[i] == samples.subrange(end, n)[i]);
        }
        lemma_silent_suffix(rest, threshold, end);
    }
}

/// Cuts the silence off both ends of `samples`.
pub fn trim_silence(samples: &Vec<i16>, threshold: u16) -> (kept: Vec<i16>)
    ensures
        kept@ == trimmed(samples@, threshold),
{
    let n: usize = samples.len();
    let mut start: usize = 0;
    while start < n && !loud(samples[start], threshold)
        invariant
            start <= n,
            n == samples@.len(),
            all_silent(samples@.subrange(0, start as int), threshold),
        decreases n - start,
    {
        start = start + 1;
    }
    let mut end: usize = n;
    while end > start && !loud(samples[end - 1], threshold)
        invariant
            start <= end <= n,
            n == samples@.len(),
            start < n ==> is_loud(samples@[start as int], threshold) && start < end,
            all_silent(samples@.subrange(end as int, n as int), threshold),
        decreases end,
    {
        end = end - 1;
        assert forall|i: int| 0 <= i < n - end implies !is_loud(
            #[trigger] samples@.subrange(end as int, n as int)[i],
            threshold,
        ) by {
            if i > 0 {
                assert(samples@.subrange(end as int, n as int)[i] == samples@.subrange(
                    end as int + 1,
                    n as int,
                )[i - 1]);
            }
        }
    }
    proof {
        lemma_silent_prefix(samples@, threshold, start as int);
        if start < n {
            lemma_silent_suffix(samples@, threshold, end as int);
        }
    }
    let mut kept: Vec<i16> = Vec::new();
    let mut i: usize = start;
    while i < end
        invariant
            start <= i <= end <= n,
            n == samples@.len(),
            kept@ == samples@.subrange(start as int, i as int),
        decreases end - i,
    {
        kept.push(samples[i]);
        i = i + 1;
    }
    kept
}

proof fn lemma_silent_prefix_is_silent(samples: Seq<i16>, threshold: u16)
    ensures
        silent_prefix_len(samples, threshold) <= samples.len(),
        all_silent(samples.subrange(0, silent_prefix_len(samples, threshold) as int), threshold),
        silent_prefix_len(samples, threshold) < samples.len() ==> is_loud(
            samples[silent_prefix_len(samples, threshold) as int],
            threshold,
        ),
    decreases samples.len(),
{
    if samples.len() == 0 || is_loud(samples.first(), threshold) {
    } else {
        let rest = samples.drop_first();
        lemma_silent_prefix_is_silent(rest, threshold);
        let lead = silent_prefix_len(samples, threshold) as int;
        assert forall|i: int| 0 <= i < lead implies !is_loud(
            #[trigger] samples.subrange(0, lead)[i],
            threshold,
        ) by {
            if i > 0 {
                assert(samples.subrange(0, lead)[i] == rest.subrange(0, lead - 1)[i - 1]);
            }
        }
    }
}

proof fn lemma_silent_suffix_is_silent(samples: Seq<i16>, threshold: u16)
    ensures
        silent_suffix_len(samples, threshold) <= samples.len(),
        all_silent(
            samples.subrange(
                samples.len() - silent_suffix_len(samples, threshold),
                samples.len() as int,
            ),
            threshold,
        ),
        silent_suffix_len(samples, threshold) < samples.len() ==> is_loud(
            samples[samples.len() - silent_suffix_len(samples, threshold) - 1],
            threshold,
        ),
    decreases samples.len(),
{
    if samples.len() == 0 || is_loud(samples.last(), threshold) {
    } else {
        let rest = samples.drop_last();
        lemma_silent_suffix_is_silent(rest, threshold);
        let n = samples.len() as int;
        let trail = silent_suffix_len(samples, threshold) as int;
        assert forall|i: int| 0 <= i < trail implies !is_loud(
            #[trigger] samples.subrange(n - trail, n)[i],
            threshold,
        ) by {
            if i < trail - 1 {
                assert(samples.subrange(n - trail, n)[i] == rest.subrange(n - trail, n - 1)[i]);
            }
        }
    }
}

/// Trimming keeps the span from the first loud sample to the last: what is
/// cut off in front and behind is silent, what is kept begins and ends loud,
/// and something is kept exactly when some sample is loud.
pub proof fn law_trim_spans_the_sound(samples: Seq<i16>, threshold: u16)
    ensures
        ({
            let lead = silent_prefix_len(samples, threshold) as int;
            let trail = silent_suffix_len(samples, threshold) as int;
            let kept = trimmed(samples, threshold);
            &&& 0 <= lead <= samples.len()
            &&& 0 <= trail <= samples.len()
            &&& all_silent(samples.subrange(0, lead), threshold)
            &&& all_silent(samples.subrange(samples.len() - trail, samples.len() as int), threshold)
            &&& kept.len() > 0 <==> !all_silent(samples, threshold)
            &&& kept.len() > 0 ==> {
                &&& kept == samples.subrange(lead, samples.len() - trail)
                &&& is_loud(kept.first(), threshold)
                &&& is_loud(kept.last(), threshold)
            }
        }),
{
    let n = samples.len() as int;
    let lead = silent_prefix_len(samples, threshold) as int;
    let trail = silent_suffix_len(samples, threshold) as int;
    lemma_silent_prefix_is_silent(samples, threshold);
    lemma_silent_suffix_is_silent(samples, threshold);
    if all_silent(samples, threshold) {
        assert(samples.subrange(0, n) =~= samples);
        lemma_silent_prefix(samples, threshold, n);
    } else {
        let k = choose|k: int| 0 <= k < n && is_loud(#[trigger] samples[k], threshold);
        if lead > k {
            assert(samples.subrange(0, lead)[k] == samples[k]);
        }
        if n - trail <= k {
            assert(samples.subrange(n - trail, n)[k - (n - trail)] == samples[k]);
        }
    }
}

} // verus!
