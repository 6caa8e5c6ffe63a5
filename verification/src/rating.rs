//! The rating resolver: from a community's policy to the rating that one
//! request is served at.

use vstd::prelude::*;
use crate::chance::coin_flip;
use crate::text::same_text;

verus! {

/// What a community allows: one of the two ratings, or either, chosen anew
/// for each request.
#[derive(Clone, Copy, Debug, PartialEq, Eq, Structural)]
pub enum RatingPolicy {
    PG,
    PG13,
    ALL,
}

/// The rating of a prompt.
#[derive(Clone, Copy, Debug, PartialEq, Eq, Structural)]
pub enum Rating {
    PG,
    PG13,
}

/// The policy that a stored setting stands for. Only `ALL` and `PG-13` are
/// told apart; every other text stands for `PG`.
pub open spec fn policy_of_text(setting: Seq<char>) -> RatingPolicy {
    if setting == "ALL"@ {
        RatingPolicy::ALL
    } else if setting == "PG-13"@ {
        RatingPolicy::PG13
    } else {
        RatingPolicy::PG
    }
}

/// The text a rating is stored and shown as.
pub open spec fn rating_text(rating: Rating) -> Seq<char> {
    match rating {
        Rating::PG => "PG"@,
        Rating::PG13 => "PG-13"@,
    }
}

/// The rating that `policy` resolves to when the coin shows `coin`: the
/// policy's own rating where it names one, else `PG-13` on `true` and `PG`
/// on `false`.
pub open spec fn resolved(policy: RatingPolicy, coin: bool) -> Rating {
    match policy {
        RatingPolicy::PG => Rating::PG,
        RatingPolicy::PG13 => Rating::PG13,
        RatingPolicy::ALL => if coin {
            Rating::PG13
        } else {
            Rating::PG
        },
    }
}

impl Rating {
    /// The text this rating is stored and shown as.
    pub fn as_str(self) -> (text: &'static str)
        ensures
            text@ == rating_text(self),
    {
        match self {
            Rating::PG => "PG",
            Rating::PG13 => "PG-13",
        }
    }
}

impl RatingPolicy {
    /// Reads a stored setting.
    pub fn from_text(setting: &str) -> (policy: RatingPolicy)
        ensures
            policy == policy_of_text(setting@),
    {
        if same_text(setting, "ALL") {
            RatingPolicy::ALL
        } else if same_text(setting, "PG-13") {
            RatingPolicy::PG13
        } else {
            RatingPolicy::PG
        }
    }
}

/// Resolves `policy` with a coin that has already been flipped.
pub fn resolve_with(policy: RatingPolicy, coin: bool) -> (rating: Rating)
    ensures
        rating == resolved(policy, coin),
{
    match policy {
        RatingPolicy::PG => Rating::PG,
        RatingPolicy::PG13 => Rating::PG13,
        RatingPolicy::ALL => if coin {
            Rating::PG13
        } else {
            Rating::PG
        },
    }
}

/// Resolves `policy` for one request. A policy that names a rating gives
/// that rating; the unrestricted policy flips a fresh coin.
pub fn resolve_rating(policy: RatingPolicy) -> (rating: Rating)
    ensures
        rating == resolved(policy, true) || rating == resolved(policy, false),
        policy == RatingPolicy::PG ==> rating == Rating::PG,
        policy == RatingPolicy::PG13 ==> rating == Rating::PG13,
{
    match policy {
        RatingPolicy::ALL => resolve_with(policy, coin_flip()),
        _ => resolve_with(policy, false),
    }
}

/// A policy that names a rating resolves to it whatever the coin shows.
pub proof fn lemma_fixed_policy_ignores_coin(policy: RatingPolicy, coin: bool)
    requires
        policy != RatingPolicy::ALL,
    ensures
        resolved(policy, coin) == resolved(policy, !coin),
        policy == RatingPolicy::PG ==> resolved(policy, coin) == Rating::PG,
        policy == RatingPolicy::PG13 ==> resolved(policy, coin) == Rating::PG13,
{
}

/// The unrestricted policy reaches both ratings, one on each side of the
/// coin.
pub proof fn lemma_unrestricted_policy_reaches_both()
    ensures
        resolved(RatingPolicy::ALL, true) == Rating::PG13,
        resolved(RatingPolicy::ALL, false) == Rating::PG,
{
}

} // verus!
