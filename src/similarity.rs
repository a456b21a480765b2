use vstd::prelude::*;

verus! {

/// Similarity scores and probabilities are fixed-point fractions: a score of
/// `SCALE` stands for 1.0 and a score of 0 for 0.0.
pub const SCALE: u32 = 1_000_000;

/// Two texts count as alike when their similarity score reaches the
/// configured threshold.
pub open spec fn spec_is_similar(score: u32, threshold: u32) -> bool {
    score >= threshold
}

pub fn is_similar(score: u32, threshold: u32) -> (r: bool)
    ensures
        r == spec_is_similar(score, threshold),
{
    score >= threshold
}

/// Some score in `scores` reaches the threshold: the text matched at least
/// one of the known variants that the scores were measured against.
pub open spec fn spec_any_similar(scores: Seq<u32>, threshold: u32) -> bool {
    exists|i: int| 0 <= i < scores.len() && spec_is_similar(#[trigger] scores[i], threshold)
}

/// Whether a text matches any of a list of known names, given the text's
/// similarity score against each of them.
pub fn find_similar(scores: &Vec<u32>, threshold: u32) -> (r: bool)
    ensures
        r == spec_any_similar(scores@, threshold),
{
    let mut i: usize = 0;
    while i < scores.len()
        invariant
            i <= scores.len(),
            forall|j: int| 0 <= j < i ==> !spec_is_similar(#[trigger] scores@[j], threshold),
        decreases scores.len() - i,
    {
        if is_similar(scores[i], threshold) {
            return true;
        }
        i = i + 1;
    }
    false
}

} // verus!

verus! {

/// The configured thresholds, each a fraction of `SCALE`: how alike two
/// player names must be, how alike a weapon text must be to a known name,
/// and how confident the weapon-icon classifier must be to be trusted.
#[derive(Clone, Copy, Debug, PartialEq, Eq, Structural)]
pub struct Thresholds {
    pub player_name: u32,
    pub weapon_name: u32,
    pub weapon_icon: u32,
}

} // verus!
