use vstd::prelude::*;

use crate::types::ProfileView;

verus! {

/// Fixed-point (x100) average of the ratings, truncated; 0 when there are none.
pub open spec fn reputation_of(rating_sum: u64, total_ratings: u64) -> nat {
    if total_ratings == 0 {
        0
    } else {
        (rating_sum as nat * 100) / (total_ratings as nat)
    }
}

/// The score agrees with the two accumulators it is computed from.
pub open spec fn reputation_consistent(p: ProfileView) -> bool {
    p.reputation_score as nat == reputation_of(p.rating_sum, p.total_ratings)
}

/// Whether one more rating fits in the 64-bit accumulators.
pub open spec fn rating_fits(rating_sum: u64, total_ratings: u64, rating: u8) -> bool {
    &&& total_ratings as nat + 1 <= u64::MAX as nat
    &&& (rating_sum as nat + rating as nat) * 100 <= u64::MAX as nat
}

/// Folds one rating into the accumulators: returns the new
/// `(total_ratings, rating_sum, reputation_score)`, or `None` where a value
/// would exceed 64 bits.
pub fn add_rating(rating_sum: u64, total_ratings: u64, rating: u8) -> (r: Option<(u64, u64, u64)>)
    ensures
        r.is_some() == rating_fits(rating_sum, total_ratings, rating),
        r.is_some() ==> {
            let (t, s, score) = r.unwrap();
            &&& t == total_ratings + 1
            &&& s == rating_sum + rating
            &&& score as nat == reputation_of(s, t)
        },
{
    if total_ratings == u64::MAX {
        return None;
    }
    let sum = rating_sum as u128 + rating as u128;
    if sum * 100 > u64::MAX as u128 {
        return None;
    }
    let total = total_ratings + 1;
    let sum = sum as u64;
    let score = (sum * 100) / total;
    Some((total, sum, score))
}

} // verus!
