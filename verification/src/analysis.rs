//! Merge analysis: how a local branch tip relates to a fetched upstream tip,
//! read off the flag word that libgit2 computes for the pair.

use vstd::prelude::*;

verus! {

/// Flag: both sides have diverged from their common ancestor.
pub const ANALYSIS_NORMAL: u32 = 1;

/// Flag: the merge input is already reachable from HEAD.
pub const ANALYSIS_UP_TO_DATE: u32 = 2;

/// Flag: the merge input is a fast-forward from HEAD.
pub const ANALYSIS_FASTFORWARD: u32 = 4;

/// Flag: HEAD is unborn and points to no commit.
pub const ANALYSIS_UNBORN: u32 = 8;

/// How a local branch tip relates to the fetched upstream tip.
#[derive(Clone, Copy, Debug, PartialEq, Eq, Structural)]
pub enum MergeAnalysisResult {
    /// The local tip equals or contains the upstream tip.
    UpToDate,
    /// The upstream tip descends from the local tip: the branch can be moved.
    FastForward,
    /// Both sides have commits of their own: a merge by hand is needed.
    Normal,
    /// The local branch has no commit yet.
    Unborn,
    /// No merge is possible.
    Unrelated,
}

/// Whether `flag` is set in the flag word `bits`.
pub open spec fn has_flag(bits: u32, flag: u32) -> bool {
    bits & flag != 0
}

/// The result that a merge analysis flag word stands for. An unborn HEAD wins
/// over every other flag, a possible fast-forward over "up to date", and
/// "up to date" over a normal merge.
pub open spec fn result_of_flags(bits: u32) -> MergeAnalysisResult {
    if has_flag(bits, ANALYSIS_UNBORN) {
        MergeAnalysisResult::Unborn
    } else if has_flag(bits, ANALYSIS_FASTFORWARD) {
        MergeAnalysisResult::FastForward
    } else if has_flag(bits, ANALYSIS_UP_TO_DATE) {
        MergeAnalysisResult::UpToDate
    } else if has_flag(bits, ANALYSIS_NORMAL) {
        MergeAnalysisResult::Normal
    } else {
        MergeAnalysisResult::Unrelated
    }
}

/// Trusted: `git2::MergeAnalysis::is_unborn` on the flags `bits`; it tests
/// whether the flag word shares a bit with the unborn flag, which is bit 3.
#[verifier::external_body]
fn flags_unborn(bits: u32) -> (r: bool)
    ensures
        r == has_flag(bits, ANALYSIS_UNBORN),
{
    git2::MergeAnalysis::from_bits_retain(bits).is_unborn()
}

/// Trusted: `git2::MergeAnalysis::is_fast_forward` on the flags `bits`; it
/// tests whether the flag word shares a bit with the fast-forward flag, which
/// is bit 2.
#[verifier::external_body]
fn flags_fast_forward(bits: u32) -> (r: bool)
    ensures
        r == has_flag(bits, ANALYSIS_FASTFORWARD),
{
    git2::MergeAnalysis::from_bits_retain(bits).is_fast_forward()
}

/// Trusted: `git2::MergeAnalysis::is_up_to_date` on the flags `bits`; it
/// tests whether the flag word shares a bit with the up-to-date flag, which
/// is bit 1.
#[verifier::external_body]
fn flags_up_to_date(bits: u32) -> (r: bool)
    ensures
        r == has_flag(bits, ANALYSIS_UP_TO_DATE),
{
    git2::MergeAnalysis::from_bits_retain(bits).is_up_to_date()
}

/// Trusted: `git2::MergeAnalysis::is_normal` on the flags `bits`; it tests
/// whether the flag word shares a bit with the normal-merge flag, which is
/// bit 0.
#[verifier::external_body]
fn flags_normal(bits: u32) -> (r: bool)
    ensures
        r == has_flag(bits, ANALYSIS_NORMAL),
{
    git2::MergeAnalysis::from_bits_retain(bits).is_normal()
}

impl MergeAnalysisResult {
    /// Reads a merge analysis flag word.
    pub fn from_flags(bits: u32) -> (r: MergeAnalysisResult)
        ensures
            r == result_of_flags(bits),
    {
        if flags_unborn(bits) {
            MergeAnalysisResult::Unborn
        } else if flags_fast_forward(bits) {
            MergeAnalysisResult::FastForward
        } else if flags_up_to_date(bits) {
            MergeAnalysisResult::UpToDate
        } else if flags_normal(bits) {
            MergeAnalysisResult::Normal
        } else {
            MergeAnalysisResult::Unrelated
        }
    }

    /// The flag word that libgit2 computes for a pair of tips in this
    /// relation: a fast-forward also allows a normal merge, and an unborn
    /// HEAD can simply be set to the target.
    pub open spec fn spec_flags(self) -> u32 {
        match self {
            MergeAnalysisResult::UpToDate => 2,
            MergeAnalysisResult::FastForward => 5,
            MergeAnalysisResult::Normal => 1,
            MergeAnalysisResult::Unborn => 12,
            MergeAnalysisResult::Unrelated => 0,
        }
    }

    /// The flag word for this relation.
    pub fn flags(self) -> (bits: u32)
        ensures
            bits == self.spec_flags(),
    {
        match self {
            MergeAnalysisResult::UpToDate => 2,
            MergeAnalysisResult::FastForward => 5,
            MergeAnalysisResult::Normal => 1,
            MergeAnalysisResult::Unborn => 12,
            MergeAnalysisResult::Unrelated => 0,
        }
    }

    /// Whether the branch reference may be moved: only on a fast-forward.
    pub fn permits_update(self) -> (r: bool)
        ensures
            r == (self == MergeAnalysisResult::FastForward),
    {
        match self {
            MergeAnalysisResult::FastForward => true,
            _ => false,
        }
    }
}

/// Reading back the flag word of a relation gives that relation.
pub proof fn lemma_flags_round_trip(r: MergeAnalysisResult)
    ensures
        result_of_flags(r.spec_flags()) == r,
{
    assert(2u32 & 8 == 0 && 2u32 & 4 == 0 && 2u32 & 2 != 0) by (bit_vector);
    assert(5u32 & 8 == 0 && 5u32 & 4 != 0) by (bit_vector);
    assert(1u32 & 8 == 0 && 1u32 & 4 == 0 && 1u32 & 2 == 0 && 1u32 & 1 != 0) by (bit_vector);
    assert(12u32 & 8 != 0) by (bit_vector);
    assert(0u32 & 8 == 0 && 0u32 & 4 == 0 && 0u32 & 2 == 0 && 0u32 & 1 == 0) by (bit_vector);
}

} // verus!
