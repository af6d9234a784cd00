//! The reputation contract: ratings after completed jobs, admin score
//! updates and slashing, all kept within 0 to 10 000 basis points.
use vstd::prelude::*;
use crate::address::Address;

verus! {

/// The phase of a job in the job registry, as the registry reports it.
#[derive(Clone, Copy, Debug, PartialEq, Eq, Structural)]
pub enum JobStatus {
    Open,
    InProgress,
    DeliverableSubmitted,
    Completed,
    Disputed,
}

/// A job as the job registry reports it.
#[derive(Clone, Debug)]
pub struct JobRecord {
    pub client: Address,
    pub freelancer: Option<Address>,
    pub metadata_hash: Vec<u8>,
    pub budget_stroops: i128,
    pub status: JobStatus,
}

/// The side of a job a reputation belongs to.
#[derive(Clone, Copy, Debug, PartialEq, Eq, Structural)]
pub enum Role {
    Client,
    Freelancer,
}

/// A party's reputation in one role.
#[derive(Clone, Copy, Debug, PartialEq, Eq, Structural)]
pub struct ReputationScore {
    pub address: Address,
    pub role: Role,
    /// Score in basis points (0 to 10 000).
    pub score: i32,
    pub total_jobs: u32,
    /// Sum of the ratings received, each from 1 to 5.
    pub total_points: i32,
    /// Number of ratings received.
    pub reviews: u32,
}

/// A record that a party has rated a job.
#[derive(Clone, Copy, Debug, PartialEq, Eq, Structural)]
pub struct Review {
    pub job_id: u64,
    pub reviewer: Address,
}

/// Why a rating is refused; each refusal aborts the call with `message`.
#[derive(Clone, Copy, Debug, PartialEq, Eq, Structural)]
pub enum RatingRejection {
    ScoreOutOfRange,
    RegistryNotSet,
    JobNotCompleted,
    NotParticipant,
    AlreadyReviewed,
}

impl RatingRejection {
    /// The text the call aborts with.
    pub fn message(&self) -> (m: &'static str)
        ensures
            m@ == rejection_message(*self),
    {
        match self {
            RatingRejection::ScoreOutOfRange => "score out of range",
            RatingRejection::RegistryNotSet => "job registry not set",
            RatingRejection::JobNotCompleted => "job not completed",
            RatingRejection::NotParticipant => "unauthorized to rate",
            RatingRejection::AlreadyReviewed => "already reviewed",
        }
    }
}

/// The text of each refusal.
pub open spec fn rejection_message(r: RatingRejection) -> Seq<char> {
    match r {
        RatingRejection::ScoreOutOfRange => "score out of range"@,
        RatingRejection::RegistryNotSet => "job registry not set"@,
        RatingRejection::JobNotCompleted => "job not completed"@,
        RatingRejection::NotParticipant => "unauthorized to rate"@,
        RatingRejection::AlreadyReviewed => "already reviewed"@,
    }
}

/// The score a party starts with: 5 000 basis points.
pub const INITIAL_SCORE: i32 = 5000;

/// The highest score.
pub const MAX_SCORE: i32 = 10_000;

/// What a slash takes off a score.
pub const SLASH_PENALTY: i32 = 2000;

/// The stored reputation of each (address, role); a later entry for the
/// same key replaces an earlier one.
pub open spec fn score_map(s: Seq<ReputationScore>) -> Map<(Address, Role), ReputationScore>
    decreases s.len(),
{
    if s.len() == 0 {
        Map::empty()
    } else {
        score_map(s.drop_last()).insert((s.last().address, s.last().role), s.last())
    }
}

/// The state of the reputation contract.
pub struct ReputationState {
    pub admin: Option<Address>,
    pub job_registry: Option<Address>,
    pub scores: Map<(Address, Role), ReputationScore>,
    pub reviewed: Set<Review>,
}

/// `x` saturated to the `i32` range.
pub open spec fn saturate_i32(x: int) -> i32 {
    if x > i32::MAX {
        i32::MAX
    } else if x < i32::MIN {
        i32::MIN
    } else {
        x as i32
    }
}

/// `x` saturated to the `u32` range.
pub open spec fn saturate_u32(x: int) -> u32 {
    if x > u32::MAX {
        u32::MAX
    } else if x < 0 {
        0
    } else {
        x as u32
    }
}

/// `x` brought into the score range 0 to 10 000.
pub open spec fn clamp_score(x: i32) -> i32 {
    if x < 0 {
        0
    } else if x > MAX_SCORE {
        MAX_SCORE
    } else {
        x
    }
}

/// The `i32` with the same bits as `x`.
pub open spec fn u32_bits_as_i32(x: u32) -> int {
    if x <= i32::MAX {
        x as int
    } else {
        x - 0x1_0000_0000
    }
}

/// `a / b`, rounded toward zero.
pub open spec fn div_toward_zero(a: int, b: int) -> int {
    if a >= 0 && b > 0 {
        a / b
    } else if a < 0 && b < 0 {
        (-a) / (-b)
    } else if a < 0 {
        -((-a) / b)
    } else {
        -(a / (-b))
    }
}

/// The score from the ratings received: the average rating (rounded
/// toward zero) times 2 000 basis points, kept within 0 to 10 000.
pub open spec fn rating_score(total_points: i32, reviews: u32) -> i32 {
    clamp_score(saturate_i32(div_toward_zero(total_points as int, u32_bits_as_i32(reviews)) * 2000))
}

/// The reputation a party has before anything is recorded.
pub open spec fn default_score(address: Address, role: Role) -> ReputationScore {
    ReputationScore { address, role, score: INITIAL_SCORE, total_jobs: 0, total_points: 0, reviews: 0 }
}

/// The role a public metrics request names: "client", or else freelancer.
pub open spec fn role_named(name: Seq<char>) -> Role {
    if name == "client"@ {
        Role::Client
    } else {
        Role::Freelancer
    }
}

impl ReputationState {
    /// The reputation of `address` in `role`, or the initial one.
    pub open spec fn score_of(self, address: Address, role: Role) -> ReputationScore {
        if self.scores.contains_key((address, role)) {
            self.scores[(address, role)]
        } else {
            default_score(address, role)
        }
    }

    /// The state with `rep` stored under its address and role.
    pub open spec fn with_score(self, rep: ReputationScore) -> ReputationState {
        ReputationState { scores: self.scores.insert((rep.address, rep.role), rep), ..self }
    }

    /// The first check of a rating that fails, if any.
    pub open spec fn rating_rejection(self, caller: Address, job_id: u64, score: u32, job: JobRecord) -> Option<RatingRejection> {
        if !(1 <= score <= 5) {
            Some(RatingRejection::ScoreOutOfRange)
        } else if self.job_registry is None {
            Some(RatingRejection::RegistryNotSet)
        } else if job.status != JobStatus::Completed {
            Some(RatingRejection::JobNotCompleted)
        } else if !(caller == job.client || job.freelancer == Some(caller)) {
            Some(RatingRejection::NotParticipant)
        } else if self.reviewed.contains(Review { job_id, reviewer: caller }) {
            Some(RatingRejection::AlreadyReviewed)
        } else {
            None
        }
    }

    /// The target's freelancer reputation after one more rating of `score`.
    pub open spec fn rated(self, target: Address, score: u32) -> ReputationScore {
        let rep = self.score_of(target, Role::Freelancer);
        let points = saturate_i32(rep.total_points + score);
        let reviews = saturate_u32(rep.reviews + 1);
        ReputationScore {
            total_points: points,
            reviews,
            total_jobs: saturate_u32(rep.total_jobs + 1),
            score: rating_score(points, reviews),
            ..rep
        }
    }

    /// The state after a rating is recorded.
    pub open spec fn submit_rating(self, caller: Address, job_id: u64, target: Address, score: u32) -> ReputationState {
        ReputationState {
            reviewed: self.reviewed.insert(Review { job_id, reviewer: caller }),
            ..self.with_score(self.rated(target, score))
        }
    }

    /// The state after the admin moves a score by `delta`.
    pub open spec fn update_score(self, address: Address, role: Role, delta: i32) -> ReputationState {
        let rep = self.score_of(address, role);
        self.with_score(ReputationScore {
            score: clamp_score(saturate_i32(rep.score + delta)),
            total_jobs: saturate_u32(rep.total_jobs + 1),
            ..rep
        })
    }

    /// The state after the admin slashes a reputation.
    pub open spec fn slash(self, address: Address, role: Role) -> ReputationState {
        let rep = self.score_of(address, role);
        self.with_score(ReputationScore { score: clamp_score(saturate_i32(rep.score - SLASH_PENALTY)), ..rep })
    }
}

/// The reputation contract's stored state. `scores` and `reviewed` hold
/// the entries that a call reads; the host may load only those.
pub struct ReputationContract {
    pub admin: Option<Address>,
    pub job_registry: Option<Address>,
    pub scores: Vec<ReputationScore>,
    pub reviewed: Vec<Review>,
}

impl View for ReputationContract {
    type V = ReputationState;

    open spec fn view(&self) -> ReputationState {
        ReputationState {
            admin: self.admin,
            job_registry: self.job_registry,
            scores: score_map(self.scores@),
            reviewed: self.reviewed@.to_set(),
        }
    }
}

/// The last index at or before `n` whose entry has key `k`, if any.
pub open spec fn last_with_key(s: Seq<ReputationScore>, k: (Address, Role), i: int) -> bool {
    &&& 0 <= i < s.len()
    &&& (s[i].address, s[i].role) == k
    &&& forall|j: int| i < j < s.len() ==> (#[trigger] s[j].address, s[j].role) != k
}

proof fn lemma_score_map_lookup(s: Seq<ReputationScore>, k: (Address, Role))
    ensures
        score_map(s).contains_key(k) <==> exists|i: int| 0 <= i < s.len() && (#[trigger] s[i].address, s[i].role) == k,
        forall|i: int| last_with_key(s, k, i) ==> score_map(s)[k] == s[i],
    decreases s.len(),
{
    if s.len() > 0 {
        let d = s.drop_last();
        lemma_score_map_lookup(d, k);
        let n = s.len() - 1;
        if (s[n].address, s[n].role) != k {
            assert forall|i: int| last_with_key(s, k, i) implies score_map(s)[k] == s[i] by {
                assert(last_with_key(d, k, i)) by {
                    assert forall|j: int| i < j < d.len() implies (#[trigger] d[j].address, d[j].role) != k by {
                        assert(d[j] == s[j]);
                    }
                }
            }
            if exists|i: int| 0 <= i < s.len() && (#[trigger] s[i].address, s[i].role) == k {
                let i = choose|i: int| 0 <= i < s.len() && (#[trigger] s[i].address, s[i].role) == k;
                assert(d[i] == s[i]);
            }
            if score_map(d).contains_key(k) {
                let i = choose|i: int| 0 <= i < d.len() && (#[trigger] d[i].address, d[i].role) == k;
                assert(d[i] == s[i]);
            }
        }
    }
}

proof fn lemma_score_map_update(s: Seq<ReputationScore>, i: int, v: ReputationScore)
    requires
        last_with_key(s, (v.address, v.role), i),
    ensures
        score_map(s.update(i, v)) == score_map(s).insert((v.address, v.role), v),
    decreases s.len(),
{
    let u = s.update(i, v);
    let n = s.len() - 1;
    if i == n {
        assert(u.drop_last() =~= s.drop_last());
    } else {
        let d = s.drop_last();
        assert(last_with_key(d, (v.address, v.role), i)) by {
            assert forall|j: int| i < j < d.len() implies (#[trigger] d[j].address, d[j].role) != (v.address, v.role) by {
                assert(d[j] == s[j]);
            }
        }
        lemma_score_map_update(d, i, v);
        assert(u.drop_last() =~= d.update(i, v));
        assert(score_map(u) =~= score_map(s).insert((v.address, v.role), v));
    }
}

/// `x` saturated to the `i32` range.
fn saturating_i32(x: i64) -> (r: i32)
    ensures
        r == saturate_i32(x as int),
{
    if x > i32::MAX as i64 {
        i32::MAX
    } else if x < i32::MIN as i64 {
        i32::MIN
    } else {
        x as i32
    }
}

/// `x` saturated to the `u32` range.
fn saturating_u32(x: u64) -> (r: u32)
    ensures
        r == saturate_u32(x as int),
{
    if x > u32::MAX as u64 {
        u32::MAX
    } else {
        x as u32
    }
}

/// `x` brought into the score range.
fn clamped_score(x: i32) -> (r: i32)
    ensures
        r == clamp_score(x),
{
    if x < 0 {
        0
    } else if x > MAX_SCORE {
        MAX_SCORE
    } else {
        x
    }
}

/// The score from the ratings received.
fn compute_rating_score(total_points: i32, reviews: u32) -> (r: i32)
    requires
        reviews >= 1,
        total_points > i32::MIN,
    ensures
        r == rating_score(total_points, reviews),
{
    let divisor: i32 = if reviews <= i32::MAX as u32 {
        reviews as i32
    } else {
        ((reviews - 0x8000_0000u32) as i32) - i32::MAX - 1
    };
    let avg: i32 = match total_points.checked_div(divisor) {
        Some(q) => q,
        None => {
            0
        },
    };
    let scaled = saturating_i32(avg as i64 * 2000);
    clamped_score(scaled)
}

impl ReputationContract {
    /// A reputation contract with nothing stored.
    pub fn new() -> (c: ReputationContract)
        ensures
            c@.admin is None,
            c@.job_registry is None,
            c@.scores == Map::<(Address, Role), ReputationScore>::empty(),
            c@.reviewed == Set::<Review>::empty(),
    {
        let c = ReputationContract { admin: None, job_registry: None, scores: Vec::new(), reviewed: Vec::new() };
        proof {
            assert(c.reviewed@.to_set() =~= Set::<Review>::empty());
        }
        c
    }

    /// Whether an admin has been set.
    pub fn is_initialized(&self) -> (r: bool)
        ensures
            r == self@.admin is Some,
    {
        self.admin.is_some()
    }

    /// The admin, if set.
    pub fn get_admin(&self) -> (r: Option<Address>)
        ensures
            r == self@.admin,
    {
        self.admin
    }

    /// The job registry that ratings are checked against, if set.
    pub fn get_job_registry(&self) -> (r: Option<Address>)
        ensures
            r == self@.job_registry,
    {
        self.job_registry
    }

    /// Sets the admin; the contract refuses a second initialization.
    pub fn initialize(&mut self, admin: Address)
        requires
            old(self)@.admin is None,
        ensures
            final(self)@ == (ReputationState { admin: Some(admin), ..old(self)@ }),
    {
        self.admin = Some(admin);
    }

    /// The admin sets the job registry that ratings are checked against.
    pub fn set_job_registry(&mut self, admin: Address, registry: Address)
        requires
            old(self)@.admin == Some(admin),
        ensures
            final(self)@ == (ReputationState { job_registry: Some(registry), ..old(self)@ }),
    {
        self.job_registry = Some(registry);
    }

    /// The reputation of `address` in `role`: the stored one, or a score of
    /// 5 000 with no jobs and no ratings.
    pub fn get_score(&self, address: Address, role: Role) -> (r: ReputationScore)
        ensures
            r == self@.score_of(address, role),
    {
        match self.find_score(address, role) {
            Some(i) => self.scores[i],
            None => ReputationScore { address, role, score: INITIAL_SCORE, total_jobs: 0, total_points: 0, reviews: 0 },
        }
    }

    /// The index of the entry that holds the reputation of `address` in
    /// `role`, if any.
    fn find_score(&self, address: Address, role: Role) -> (r: Option<usize>)
        ensures
            match r {
                Some(i) => last_with_key(self.scores@, (address, role), i as int)
                    && self@.scores.contains_key((address, role))
                    && self@.scores[(address, role)] == self.scores@[i as int],
                None => !self@.scores.contains_key((address, role)),
            },
    {
        proof {
            lemma_score_map_lookup(self.scores@, (address, role));
        }
        let mut i = self.scores.len();
        while i > 0
            invariant
                i <= self.scores.len(),
                forall|j: int| i <= j < self.scores.len() ==> (#[trigger] self.scores@[j].address, self.scores@[j].role) != (address, role),
            decreases i,
        {
            i = i - 1;
            if self.scores[i].address == address && self.scores[i].role == role {
                proof {
                    lemma_score_map_lookup(self.scores@, (address, role));
                    assert(last_with_key(self.scores@, (address, role), i as int));
                }
                return Some(i);
            }
        }
        proof {
            assert forall|j: int| 0 <= j < self.scores.len() implies (#[trigger] self.scores@[j].address, self.scores@[j].role) != (address, role) by {}
        }
        None
    }

    /// Stores `rep` as the reputation of its address in its role.
    fn store_score(&mut self, rep: ReputationScore)
        ensures
            final(self)@ == old(self)@.with_score(rep),
    {
        match self.find_score(rep.address, rep.role) {
            Some(i) => {
                proof {
                    lemma_score_map_update(self.scores@, i as int, rep);
                }
                self.scores.set(i, rep);
            },
            None => {
                self.scores.push(rep);
                proof {
                    assert(self.scores@.drop_last() =~= old(self).scores@);
                }
            },
        }
    }

    /// Whether the party has rated the job.
    fn has_reviewed(&self, job_id: u64, reviewer: Address) -> (r: bool)
        ensures
            r == self@.reviewed.contains(Review { job_id, reviewer }),
    {
        let target = Review { job_id, reviewer };
        let mut i: usize = 0;
        while i < self.reviewed.len()
            invariant
                i <= self.reviewed.len(),
                target == (Review { job_id, reviewer }),
                forall|j: int| 0 <= j < i ==> self.reviewed@[j] != target,
            decreases self.reviewed.len() - i,
        {
            if self.reviewed[i] == target {
                proof {
                    assert(self.reviewed@[i as int] == target);
                    assert(self.reviewed@.contains(target));
                    assert(self@.reviewed.contains(target));
                }
                return true;
            }
            i = i + 1;
        }
        false
    }

    /// The checks of a rating that come before the job is fetched: the
    /// rating is from 1 to 5 and a registry is configured, which is
    /// returned.
    pub fn rating_registry(&self, score: u32) -> (r: Result<Address, RatingRejection>)
        ensures
            !(1 <= score <= 5) ==> r == Err::<Address, RatingRejection>(RatingRejection::ScoreOutOfRange),
            (1 <= score <= 5) ==> match self@.job_registry {
                Some(a) => r == Ok::<Address, RatingRejection>(a),
                None => r == Err::<Address, RatingRejection>(RatingRejection::RegistryNotSet),
            },
    {
        if !(1 <= score && score <= 5) {
            return Err(RatingRejection::ScoreOutOfRange);
        }
        match self.job_registry {
            Some(a) => Ok(a),
            None => Err(RatingRejection::RegistryNotSet),
        }
    }

    /// All checks of a rating, in order, against the job the registry
    /// reported.
    pub fn check_rating(&self, caller: Address, job_id: u64, score: u32, job: &JobRecord) -> (r: Result<(), RatingRejection>)
        ensures
            match self@.rating_rejection(caller, job_id, score, *job) {
                Some(e) => r == Err::<(), RatingRejection>(e),
                None => r is Ok,
            },
    {
        if let Err(e) = self.rating_registry(score) {
            return Err(e);
        }
        if job.status != JobStatus::Completed {
            return Err(RatingRejection::JobNotCompleted);
        }
        let is_freelancer = match job.freelancer {
            Some(f) => caller == f,
            None => false,
        };
        if !(caller == job.client || is_freelancer) {
            return Err(RatingRejection::NotParticipant);
        }
        if self.has_reviewed(job_id, caller) {
            return Err(RatingRejection::AlreadyReviewed);
        }
        Ok(())
    }

    /// Records `caller`'s rating of `score` for `target` on a completed job:
    /// the target's freelancer reputation gains the rating and one job, and
    /// its score becomes the average rating in basis points.
    pub fn submit_rating(&mut self, caller: Address, job_id: u64, target: Address, score: u32, job: &JobRecord)
        requires
            old(self)@.rating_rejection(caller, job_id, score, *job) is None,
        ensures
            final(self)@ == old(self)@.submit_rating(caller, job_id, target, score),
    {
        let rep = self.get_score(target, Role::Freelancer);
        let points = saturating_i32(rep.total_points as i64 + score as i64);
        let reviews = saturating_u32(rep.reviews as u64 + 1);
        let total_jobs = saturating_u32(rep.total_jobs as u64 + 1);
        let new_score = compute_rating_score(points, reviews);
        let updated = ReputationScore { total_points: points, reviews, total_jobs, score: new_score, ..rep };
        self.store_score(updated);
        let ghost before = self.reviewed@;
        self.reviewed.push(Review { job_id, reviewer: caller });
        proof {
            assert(self.reviewed@ == before.push(Review { job_id, reviewer: caller }));
            before.lemma_push_to_set_commute(Review { job_id, reviewer: caller });
        }
    }

    /// The admin moves a reputation by `delta` basis points, kept within
    /// 0 to 10 000, and counts one more job.
    pub fn update_score(&mut self, address: Address, role: Role, delta: i32)
        requires
            old(self)@.admin is Some,
        ensures
            final(self)@ == old(self)@.update_score(address, role, delta),
    {
        let rep = self.get_score(address, role);
        let score = clamped_score(saturating_i32(rep.score as i64 + delta as i64));
        let total_jobs = saturating_u32(rep.total_jobs as u64 + 1);
        self.store_score(ReputationScore { score, total_jobs, ..rep });
    }

    /// The admin slashes a reputation for fraud or abandonment: its score
    /// loses 2 000 basis points, and does not go below zero.
    pub fn slash(&mut self, address: Address, role: Role)
        requires
            old(self)@.admin is Some,
        ensures
            final(self)@ == old(self)@.slash(address, role),
    {
        let rep = self.get_score(address, role);
        let score = clamped_score(saturating_i32(rep.score as i64 - SLASH_PENALTY as i64));
        self.store_score(ReputationScore { score, ..rep });
    }

    /// Public profile figures of `address` in the role named `role_name`
    /// ("client", or else freelancer): score, jobs, rating points, ratings.
    pub fn get_public_metrics(&self, address: Address, role_name: &str) -> (r: Vec<i128>)
        ensures
            ({
                let rep = self@.score_of(address, role_named(role_name@));
                r@ == seq![rep.score as i128, rep.total_jobs as i128, rep.total_points as i128, rep.reviews as i128]
            }),
    {
        let name = role_name.to_owned();
        let client = "client".to_owned();
        proof {
            reveal_strlit("client");
        }
        let role = if name == client {
            Role::Client
        } else {
            Role::Freelancer
        };
        let rep = self.get_score(address, role);
        let mut metrics: Vec<i128> = Vec::new();
        metrics.push(rep.score as i128);
        metrics.push(rep.total_jobs as i128);
        metrics.push(rep.total_points as i128);
        metrics.push(rep.reviews as i128);
        proof {
            assert(metrics@ =~= seq![rep.score as i128, rep.total_jobs as i128, rep.total_points as i128, rep.reviews as i128]);
        }
        metrics
    }
}

} // verus!
