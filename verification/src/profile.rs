//! Public profiles and the badge tiers earned by reputation scores.
use vstd::prelude::*;
use crate::address::Address;

verus! {

/// Badge tier awarded by score (in basis points): Bronze from 4 000,
/// Silver from 6 000, Gold from 8 000, Platinum from 9 500.
#[derive(Clone, Copy, Debug, PartialEq, Eq, Structural)]
pub enum BadgeLevel {
    NoBadge,
    Bronze,
    Silver,
    Gold,
    Platinum,
}

/// The badge a score earns.
pub open spec fn badge_for(score: i32) -> BadgeLevel {
    if score >= 9_500 {
        BadgeLevel::Platinum
    } else if score >= 8_000 {
        BadgeLevel::Gold
    } else if score >= 6_000 {
        BadgeLevel::Silver
    } else if score >= 4_000 {
        BadgeLevel::Bronze
    } else {
        BadgeLevel::NoBadge
    }
}

/// The rank of a badge, from 0 for none to 4 for platinum.
pub open spec fn badge_rank(b: BadgeLevel) -> int {
    match b {
        BadgeLevel::NoBadge => 0,
        BadgeLevel::Bronze => 1,
        BadgeLevel::Silver => 2,
        BadgeLevel::Gold => 3,
        BadgeLevel::Platinum => 4,
    }
}

impl BadgeLevel {
    /// The badge that `score` earns.
    pub fn from_score(score: i32) -> (b: BadgeLevel)
        ensures
            b == badge_for(score),
    {
        if score >= 9_500 {
            BadgeLevel::Platinum
        } else if score >= 8_000 {
            BadgeLevel::Gold
        } else if score >= 6_000 {
            BadgeLevel::Silver
        } else if score >= 4_000 {
            BadgeLevel::Bronze
        } else {
            BadgeLevel::NoBadge
        }
    }
}

/// A higher score never earns a lower badge.
pub proof fn lemma_badges_follow_scores(a: i32, b: i32)
    requires
        a <= b,
    ensures
        badge_rank(badge_for(a)) <= badge_rank(badge_for(b)),
{
}

/// A party's public profile: its reputation as client and as freelancer,
/// with the badge each earns, and an optional metadata hash.
#[derive(Clone, Debug)]
pub struct Profile {
    pub address: Address,
    pub client_score: i32,
    pub client_points: i32,
    pub client_jobs: u32,
    pub client_badge: BadgeLevel,
    pub freelancer_score: i32,
    pub freelancer_points: i32,
    pub freelancer_jobs: u32,
    pub freelancer_badge: BadgeLevel,
    pub metadata_hash: Option<Vec<u8>>,
}

impl Profile {
    /// Both badges match their scores.
    pub open spec fn badges_current(&self) -> bool {
        &&& self.client_badge == badge_for(self.client_score)
        &&& self.freelancer_badge == badge_for(self.freelancer_score)
    }

    /// A new profile: 5 000 basis points, no points and no jobs in both
    /// roles, the bronze badge those scores earn, and no metadata.
    pub fn new(address: Address) -> (p: Profile)
        ensures
            p.address == address,
            p.client_score == 5000,
            p.client_points == 0,
            p.client_jobs == 0,
            p.freelancer_score == 5000,
            p.freelancer_points == 0,
            p.freelancer_jobs == 0,
            p.metadata_hash is None,
            p.client_badge == BadgeLevel::Bronze,
            p.freelancer_badge == BadgeLevel::Bronze,
            p.badges_current(),
    {
        Profile {
            address,
            client_score: 5000,
            client_points: 0,
            client_jobs: 0,
            client_badge: BadgeLevel::Bronze,
            freelancer_score: 5000,
            freelancer_points: 0,
            freelancer_jobs: 0,
            freelancer_badge: BadgeLevel::Bronze,
            metadata_hash: None,
        }
    }

    /// Recomputes both badges from the current scores; nothing else changes.
    pub fn refresh_badges(&mut self)
        ensures
            final(self).client_badge == badge_for(old(self).client_score),
            final(self).freelancer_badge == badge_for(old(self).freelancer_score),
            final(self).badges_current(),
            final(self).address == old(self).address,
            final(self).client_score == old(self).client_score,
            final(self).client_points == old(self).client_points,
            final(self).client_jobs == old(self).client_jobs,
            final(self).freelancer_score == old(self).freelancer_score,
            final(self).freelancer_points == old(self).freelancer_points,
            final(self).freelancer_jobs == old(self).freelancer_jobs,
            final(self).metadata_hash == old(self).metadata_hash,
    {
        self.client_badge = BadgeLevel::from_score(self.client_score);
        self.freelancer_badge = BadgeLevel::from_score(self.freelancer_score);
    }
}

} // verus!
