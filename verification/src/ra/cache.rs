//! Achievements as the local cache holds them.

use vstd::prelude::*;

verus! {

/// An achievement as it is read from the cache.
#[derive(Debug, Clone)]
pub struct CachedAchievement {
    pub id: u32,
    pub title: String,
    pub description: Option<String>,
    pub points: u32,
    pub badge_name: Option<String>,
    pub display_order: u32,
    pub date_earned: Option<String>,
    pub date_earned_hardcore: Option<String>,
}

impl CachedAchievement {
    /// Whether the achievement is earned in either mode.
    pub fn is_earned(&self) -> (r: bool)
        ensures
            r == (self.date_earned is Some || self.date_earned_hardcore is Some),
    {
        self.date_earned.is_some() || self.date_earned_hardcore.is_some()
    }

    /// Whether the achievement is earned in hardcore mode.
    pub fn is_earned_hardcore(&self) -> (r: bool)
        ensures
            r == (self.date_earned_hardcore is Some),
    {
        self.date_earned_hardcore.is_some()
    }
}

/// Earned and total number of a list of cached achievements.
pub open spec fn earned_count(list: Seq<CachedAchievement>) -> nat
    decreases list.len(),
{
    if list.len() == 0 {
        0
    } else {
        earned_count(list.drop_last()) + if list.last().date_earned is Some
            || list.last().date_earned_hardcore is Some {
            1nat
        } else {
            0nat
        }
    }
}

/// How many of the achievements are earned, and how many there are.
pub fn progress_of(list: &Vec<CachedAchievement>) -> (r: (usize, usize))
    ensures
        r.0 == earned_count(list@),
        r.1 == list@.len(),
{
    let mut earned: usize = 0;
    let mut i: usize = 0;
    while i < list.len()
        invariant
            i <= list.len(),
            earned == earned_count(list@.take(i as int)),
            earned <= i,
        decreases list.len() - i,
    {
        proof {
            let next = list@.take(i as int + 1);
            assert(next.drop_last() == list@.take(i as int));
            assert(next.last() == list@[i as int]);
        }
        if list[i].is_earned() {
            earned = earned + 1;
        }
        i = i + 1;
    }
    proof {
        assert(list@.take(list.len() as int) == list@);
    }
    (earned, list.len())
}

} // verus!
