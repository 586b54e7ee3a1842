use vstd::prelude::*;

verus! {

/// One timed trial of one implementation on one file.
#[derive(Clone, Copy, Debug, PartialEq, Eq, Structural)]
pub struct TrialSample {
    /// Wall-clock time of the transform call alone, in nanoseconds.
    pub elapsed_ns: u64,
    /// The logical amount of work (pixels, or decompressed bytes), in a unit
    /// that the driver chooses.
    pub logical_size: u64,
    /// The reference byte count that the prepare step reported.
    pub input_bytes: u64,
    /// The byte length of the transform's output, where it has one.
    pub output_bytes: Option<u64>,
}

/// The total output bytes of the samples that have an output length.
pub open spec fn sum_output(s: Seq<TrialSample>) -> nat
    decreases s.len(),
{
    if s.len() == 0 {
        0
    } else {
        sum_output(s.drop_last()) + match s.last().output_bytes {
            Some(o) => o as nat,
            None => 0,
        }
    }
}

/// The total reference bytes of the samples that have an output length.
pub open spec fn sum_input(s: Seq<TrialSample>) -> nat
    decreases s.len(),
{
    if s.len() == 0 {
        0
    } else {
        sum_input(s.drop_last()) + match s.last().output_bytes {
            Some(_) => s.last().input_bytes as nat,
            None => 0,
        }
    }
}

/// How many samples have an output length.
pub open spec fn count_sized(s: Seq<TrialSample>) -> nat
    decreases s.len(),
{
    if s.len() == 0 {
        0
    } else {
        count_sized(s.drop_last()) + if s.last().output_bytes is Some { 1nat } else { 0nat }
    }
}

/// The ratio of means of a sample set, as the exact fraction
/// `(total output bytes, total reference bytes)` over the samples that have an
/// output length; `None` where no sample has one.
pub fn ratio_of_means(samples: &Vec<TrialSample>) -> (r: Option<(u128, u128)>)
    ensures
        match r {
            Some((o, i)) => count_sized(samples@) > 0 && o == sum_output(samples@) && i == sum_input(
                samples@,
            ),
            None => count_sized(samples@) == 0,
        },
{
    let ghost s = samples@;
    let mut out: u128 = 0;
    let mut inp: u128 = 0;
    let mut sized: usize = 0;
    let mut k: usize = 0;
    while k < samples.len()
        invariant
            s == samples@,
            0 <= k <= s.len(),
            out == sum_output(s.subrange(0, k as int)),
            inp == sum_input(s.subrange(0, k as int)),
            sized == count_sized(s.subrange(0, k as int)),
            out <= k * 0xffff_ffff_ffff_ffffu128,
            inp <= k * 0xffff_ffff_ffff_ffffu128,
            sized <= k,
        decreases s.len() - k,
    {
        assert(s.subrange(0, k + 1).drop_last() == s.subrange(0, k as int));
        let sample = samples[k];
        if let Some(o) = sample.output_bytes {
            assert((k + 1) * 0xffff_ffff_ffff_ffffu128 == k * 0xffff_ffff_ffff_ffffu128
                + 0xffff_ffff_ffff_ffffu128) by (nonlinear_arith);
            assert(k * 0xffff_ffff_ffff_ffffu128 + 0xffff_ffff_ffff_ffffu128 <= 0xffff_ffff_ffff_ffffu128
                * 0xffff_ffff_ffff_ffffu128 + 0xffff_ffff_ffff_ffffu128) by (nonlinear_arith)
                requires
                    k < 0xffff_ffff_ffff_ffffu128,
            ;
            out = out + o as u128;
            inp = inp + sample.input_bytes as u128;
            sized = sized + 1;
        } else {
            assert(k * 0xffff_ffff_ffff_ffffu128 <= (k + 1) * 0xffff_ffff_ffff_ffffu128) by (
            nonlinear_arith);
        }
        k = k + 1;
    }
    assert(s.subrange(0, s.len() as int) == s);
    if sized == 0 {
        None
    } else {
        Some((out, inp))
    }
}

/// Where every sample's output is exactly half its reference size, the ratio
/// of means is exactly one half.
pub proof fn lemma_half_ratio(s: Seq<TrialSample>)
    requires
        forall|i: int|
            0 <= i < s.len() ==> (#[trigger] s[i]).output_bytes is Some && 2 * s[i].output_bytes->Some_0
                == s[i].input_bytes,
    ensures
        2 * sum_output(s) == sum_input(s),
    decreases s.len(),
{
    if s.len() > 0 {
        let init = s.drop_last();
        assert forall|i: int| 0 <= i < init.len() implies (#[trigger] init[i]).output_bytes is Some
            && 2 * init[i].output_bytes->Some_0 == init[i].input_bytes by {
            assert(init[i] == s[i]);
        }
        lemma_half_ratio(init);
        assert(s.last() == s[s.len() - 1]);
    }
}

} // verus!
