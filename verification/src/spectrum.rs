//! Sample-count discipline and resampling plan of a spectral power
//! distribution.
//!
//! A spectrum stores its intensity samples in a fixed-capacity buffer whose
//! active length must be a multiple of 8 (for SIMD-friendly strides) between
//! 2 and [`NBR_OF_SAMPLES_MAX`]. Changing the sample count ("resampling")
//! happens in passes: down-sampling repeatedly halves the count, rounding each
//! intermediate length up to the next multiple of 8, until the count is within
//! a factor of two of the goal, then interpolates once more to the exact goal;
//! up-sampling is a single pass. The interpolation itself works on
//! floating-point intensities and lives with the unverified shading code; this
//! module plans the passes and proves that every pass the plan demands keeps
//! the interpolation's own preconditions (source length at least the target
//! and at most twice the target).

use vstd::prelude::*;

verus! {

/// Largest number of intensity samples a spectrum may carry.
pub const NBR_OF_SAMPLES_MAX: usize = 128;

/// An acceptable sample count: a multiple of 8 between 2 and
/// [`NBR_OF_SAMPLES_MAX`], so in effect one of 8, 16, ..., 128.
pub open spec fn sample_count_ok(n: usize) -> bool {
    n % 8 == 0 && 2 <= n <= NBR_OF_SAMPLES_MAX
}

/// Checks that `n` is a sample count a spectrum may be built with or
/// resampled to.
pub fn valid_sample_count(n: usize) -> (r: bool)
    ensures
        r == sample_count_ok(n),
{
    n % 8 == 0 && 2 <= n && n <= NBR_OF_SAMPLES_MAX
}

/// The length one down-sampling pass shrinks a sample list to: half the
/// current length, rounded up to the next multiple of 8.
pub open spec fn spec_halved_length(len: int) -> int {
    if (len / 2) % 8 == 0 {
        len / 2
    } else {
        ((len / 2) / 8 + 1) * 8
    }
}

/// Computes the target length of one down-sampling pass over `len` samples:
/// half of `len`, rounded up to the next multiple of 8.
pub fn halved_length(len: usize) -> (r: usize)
    requires
        len > 8,
    ensures
        r == spec_halved_length(len as int),
        r % 8 == 0,
        len / 2 <= r,
        r < len,
        8 <= r,
{
    let half: usize = len / 2;
    if half % 8 == 0 {
        half
    } else {
        (half / 8 + 1) * 8
    }
}

/// What one down-sampling pass guarantees of its target length.
proof fn lemma_halved_length_bounds(len: int)
    requires
        len > 8,
    ensures
        spec_halved_length(len) % 8 == 0,
        len / 2 <= spec_halved_length(len),
        spec_halved_length(len) < len,
        8 <= spec_halved_length(len),
{
}

/// The lengths the down-sampling loop passes through: starting from `len`,
/// keep halving (each time rounding up to a multiple of 8) while the current
/// length is still more than twice the goal.
pub open spec fn spec_collapse_chain(len: usize, target: usize) -> Seq<usize>
    decreases len,
    when 8 <= target && 8 <= len
    via collapse_chain_decreases
{
    if len > 2 * target {
        seq![spec_halved_length(len as int) as usize] + spec_collapse_chain(
            spec_halved_length(len as int) as usize,
            target,
        )
    } else {
        Seq::empty()
    }
}

#[via_fn]
proof fn collapse_chain_decreases(len: usize, target: usize) {
    if len > 2 * target {
        lemma_halved_length_bounds(len as int);
    }
}

/// The pass lengths a resampling from `current` to `target` samples performs,
/// in order: none when the count already matches, one direct pass when
/// sampling up, and when sampling down the halving chain followed by one final
/// pass to the exact goal.
pub open spec fn spec_resample_passes(current: usize, target: usize) -> Seq<usize> {
    if target == current {
        Seq::empty()
    } else if current < target {
        seq![target]
    } else {
        spec_collapse_chain(current, target).push(target)
    }
}

/// The length a pass reads from: the spectrum's own sample count for the
/// first pass of a plan, afterwards the length the previous pass produced.
pub open spec fn pass_source(current: usize, passes: Seq<usize>, i: int) -> int {
    if i == 0 {
        current as int
    } else {
        passes[i - 1] as int
    }
}

/// Plans a resampling from `current` to `target` samples as the list of
/// lengths to interpolate to, one pass each, in order. The plan is empty
/// exactly when the count already matches (resampling to the same count does
/// nothing); otherwise it ends at the goal. Every length in the plan is
/// itself an acceptable sample count, and when sampling down, each pass
/// shrinks its input to at least half — the precondition of the linear
/// interpolation that carries out a pass.
pub fn resample_passes(current: usize, target: usize) -> (passes: Vec<usize>)
    requires
        sample_count_ok(current),
        sample_count_ok(target),
    ensures
        passes@ == spec_resample_passes(current, target),
        passes@.len() == 0 <==> target == current,
        passes@.len() > 0 ==> passes@.last() == target,
        forall|i: int| 0 <= i < passes@.len() ==> sample_count_ok(#[trigger] passes@[i]),
        target < current ==> forall|i: int|
            0 <= i < passes@.len() ==> passes@[i] < #[trigger] pass_source(current, passes@, i)
                && pass_source(current, passes@, i) <= 2 * passes@[i],
{
    let mut passes: Vec<usize> = Vec::new();
    if target == current {
        return passes;
    }
    if current < target {
        passes.push(target);
        return passes;
    }
    let mut len: usize = current;
    while len > 2 * target
        invariant
            sample_count_ok(current),
            sample_count_ok(target),
            target < current,
            sample_count_ok(len),
            target < len,
            len <= current,
            passes@.len() == 0 ==> len == current,
            spec_collapse_chain(current, target) == passes@ + spec_collapse_chain(len, target),
            passes@.len() > 0 ==> passes@.last() == len,
            forall|i: int| 0 <= i < passes@.len() ==> sample_count_ok(#[trigger] passes@[i]),
            forall|i: int|
                0 <= i < passes@.len() ==> passes@[i] < #[trigger] pass_source(
                    current,
                    passes@,
                    i,
                ) && pass_source(current, passes@, i) <= 2 * passes@[i],
        decreases len,
    {
        proof {
            lemma_halved_length_bounds(len as int);
        }
        let next: usize = halved_length(len);
        proof {
            assert(len % 2 == 0);
            assert(len <= 2 * spec_halved_length(len as int));
            assert(passes@ + spec_collapse_chain(len, target) == passes@.push(next)
                + spec_collapse_chain(next, target)) by {
                assert(spec_collapse_chain(len, target) == seq![next] + spec_collapse_chain(
                    next,
                    target,
                ));
                assert(passes@ + (seq![next] + spec_collapse_chain(next, target))
                    =~= passes@.push(next) + spec_collapse_chain(next, target));
            }
        }
        let ghost prefix = passes@;
        passes.push(next);
        proof {
            assert forall|i: int|
                0 <= i < passes@.len() implies passes@[i] < #[trigger] pass_source(
                current,
                passes@,
                i,
            ) && pass_source(current, passes@, i) <= 2 * passes@[i] by {
                if i < prefix.len() {
                    assert(passes@[i] == prefix[i]);
                    assert(pass_source(current, passes@, i) == pass_source(current, prefix, i));
                } else {
                    assert(passes@[i] == next);
                    assert(pass_source(current, passes@, i) == len as int);
                }
            }
        }
        len = next;
    }
    proof {
        assert(spec_collapse_chain(len, target) =~= Seq::<usize>::empty());
        assert(passes@ + Seq::<usize>::empty() =~= passes@);
        assert(len % 2 == 0);
    }
    let ghost chain = passes@;
    passes.push(target);
    proof {
        assert(passes@ =~= spec_resample_passes(current, target));
        assert forall|i: int|
            0 <= i < passes@.len() implies passes@[i] < #[trigger] pass_source(
            current,
            passes@,
            i,
        ) && pass_source(current, passes@, i) <= 2 * passes@[i] by {
            if i < chain.len() {
                assert(passes@[i] == chain[i]);
                assert(pass_source(current, passes@, i) == pass_source(current, chain, i));
            } else {
                assert(passes@[i] == target);
                assert(pass_source(current, passes@, i) == len as int);
            }
        }
    }
    passes
}

} // verus!

