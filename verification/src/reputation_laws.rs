//! Properties of the reputation contract across its calls.
use vstd::prelude::*;
use crate::address::Address;
use crate::reputation::{
    score_map, rating_score, JobRecord, JobStatus, RatingRejection, Review, ReputationScore,
    ReputationState, Role, MAX_SCORE, SLASH_PENALTY,
};

verus! {

/// Every stored score lies within 0 to 10 000 basis points.
pub open spec fn scores_in_range(s: ReputationState) -> bool {
    forall|k: (Address, Role)| s.scores.contains_key(k) ==> 0 <= #[trigger] s.scores[k].score <= MAX_SCORE
}

/// Each stored reputation is stored under its own address and role.
pub open spec fn scores_keyed(s: ReputationState) -> bool {
    forall|k: (Address, Role)| s.scores.contains_key(k) ==> (#[trigger] s.scores[k].address, s.scores[k].role) == k
}

/// The contract stores each reputation under its own address and role.
pub proof fn lemma_stored_scores_keyed(entries: Seq<ReputationScore>)
    ensures
        forall|k: (Address, Role)| score_map(entries).contains_key(k) ==> (#[trigger] score_map(entries)[k].address, score_map(entries)[k].role) == k,
    decreases entries.len(),
{
    if entries.len() > 0 {
        lemma_stored_scores_keyed(entries.drop_last());
    }
}

/// `x` kept within 0 to 10 000.
pub open spec fn clamp_int(x: int) -> int {
    if x < 0 {
        0
    } else if x > 10_000 {
        10_000
    } else {
        x
    }
}

/// Scores stay within 0 to 10 000: a reported score is in range, and
/// rating, updating and slashing keep every stored score in range.
pub proof fn lemma_scores_stay_in_range(s: ReputationState, address: Address, role: Role, delta: i32, caller: Address, job_id: u64, target: Address, score: u32)
    requires
        scores_in_range(s),
    ensures
        0 <= s.score_of(address, role).score <= MAX_SCORE,
        scores_in_range(s.update_score(address, role, delta)),
        scores_in_range(s.slash(address, role)),
        scores_in_range(s.submit_rating(caller, job_id, target, score)),
{
}

/// An update moves the score by `delta`, kept within 0 to 10 000, and
/// counts one more job; the ratings received, and every other reputation,
/// stay as they were.
pub proof fn lemma_update_moves_score_by_delta(s: ReputationState, address: Address, role: Role, delta: i32)
    requires
        scores_in_range(s),
        scores_keyed(s),
        s.score_of(address, role).total_jobs < u32::MAX,
    ensures
        s.update_score(address, role, delta).score_of(address, role).score == clamp_int(s.score_of(address, role).score + delta),
        s.update_score(address, role, delta).score_of(address, role).total_jobs == s.score_of(address, role).total_jobs + 1,
        s.update_score(address, role, delta).score_of(address, role).total_points == s.score_of(address, role).total_points,
        s.update_score(address, role, delta).score_of(address, role).reviews == s.score_of(address, role).reviews,
        forall|a: Address, r: Role| (a, r) != (address, role)
            ==> #[trigger] s.update_score(address, role, delta).score_of(a, r) == s.score_of(a, r),
{
    assert(s.scores.contains_key((address, role)) ==> (s.scores[(address, role)].address, s.scores[(address, role)].role) == (address, role));
}

/// A slash takes 2 000 basis points off the score, stopping at zero, and
/// changes nothing else of the reputation.
pub proof fn lemma_slash_takes_penalty(s: ReputationState, address: Address, role: Role)
    requires
        scores_in_range(s),
        scores_keyed(s),
    ensures
        ({
            let before = s.score_of(address, role);
            let after = s.slash(address, role).score_of(address, role);
            &&& after.score == if before.score >= SLASH_PENALTY { before.score - SLASH_PENALTY } else { 0 }
            &&& after.total_jobs == before.total_jobs
            &&& after.total_points == before.total_points
            &&& after.reviews == before.reviews
        }),
{
    assert(s.scores.contains_key((address, role)) ==> (s.scores[(address, role)].address, s.scores[(address, role)].role) == (address, role));
}

/// The score from ratings is the average rating (rounded down) times
/// 2 000, at most 10 000, while the counts are in their ordinary range.
pub proof fn lemma_rating_score_is_average(total_points: i32, reviews: u32)
    requires
        total_points >= 0,
        1 <= reviews <= i32::MAX,
    ensures
        rating_score(total_points, reviews) == if ((total_points as int) / (reviews as int)) * 2000 > 10_000 {
            10_000
        } else {
            ((total_points as int) / (reviews as int)) * 2000
        },
{
    assert((total_points as int) / (reviews as int) <= total_points) by (nonlinear_arith)
        requires
            total_points >= 0,
            reviews >= 1;
    assert((total_points as int) / (reviews as int) >= 0) by (nonlinear_arith)
        requires
            total_points >= 0,
            reviews >= 1;
}

/// A party's first rating of `score` (from 1 to 5) gives it `score` times
/// 2 000 basis points, one job, one rating and `score` points.
pub proof fn lemma_first_rating(s: ReputationState, caller: Address, job_id: u64, target: Address, score: u32)
    requires
        1 <= score <= 5,
        !s.scores.contains_key((target, Role::Freelancer)),
    ensures
        ({
            let rep = s.submit_rating(caller, job_id, target, score).score_of(target, Role::Freelancer);
            &&& rep.score == 2000 * score
            &&& rep.reviews == 1
            &&& rep.total_jobs == 1
            &&& rep.total_points == score
        }),
{
}

/// A party rates a job once: after a rating is recorded, the same party's
/// next rating of the same job is refused as already reviewed, whatever
/// the score and the job record.
pub proof fn lemma_one_rating_per_job(s: ReputationState, caller: Address, job_id: u64, target: Address, score: u32, again: u32, job: JobRecord)
    requires
        s.rating_rejection(caller, job_id, score, job) is None,
        1 <= again <= 5,
    ensures
        s.submit_rating(caller, job_id, target, score).rating_rejection(caller, job_id, again, job)
            == Some(RatingRejection::AlreadyReviewed),
{
}

/// Each rating adds its points and one rating to the target's freelancer
/// reputation, whatever was recorded before, and counts one more job; the
/// score becomes the average rating received (rounded down) times 2 000,
/// at most 10 000, so the number of jobs does not enter it. Every other
/// reputation stays as it was.
pub proof fn lemma_rating_averages_ratings(s: ReputationState, caller: Address, job_id: u64, target: Address, score: u32)
    requires
        scores_keyed(s),
        1 <= score <= 5,
        s.score_of(target, Role::Freelancer).total_points >= 0,
        s.score_of(target, Role::Freelancer).total_points + 5 <= i32::MAX,
        s.score_of(target, Role::Freelancer).reviews < i32::MAX,
        s.score_of(target, Role::Freelancer).total_jobs < u32::MAX,
    ensures
        ({
            let before = s.score_of(target, Role::Freelancer);
            let after = s.submit_rating(caller, job_id, target, score).score_of(target, Role::Freelancer);
            let average = (after.total_points as int) / (after.reviews as int);
            &&& after.total_points == before.total_points + score
            &&& after.reviews == before.reviews + 1
            &&& after.total_jobs == before.total_jobs + 1
            &&& after.score == if average * 2000 > 10_000 { 10_000 } else { average * 2000 }
        }),
        forall|a: Address, r: Role| (a, r) != (target, Role::Freelancer)
            ==> #[trigger] s.submit_rating(caller, job_id, target, score).score_of(a, r) == s.score_of(a, r),
{
    let k = (target, Role::Freelancer);
    assert(s.scores.contains_key(k) ==> (s.scores[k].address, s.scores[k].role) == k);
    let after = s.submit_rating(caller, job_id, target, score).score_of(target, Role::Freelancer);
    lemma_rating_score_is_average(after.total_points, after.reviews);
}

/// A party nobody has rated, updated or slashed in a role stands at 5 000
/// basis points with no jobs and no ratings.
pub proof fn lemma_unrecorded_reputation(s: ReputationState, address: Address, role: Role)
    requires
        !s.scores.contains_key((address, role)),
    ensures
        s.score_of(address, role) == (ReputationScore {
            address,
            role,
            score: 5000,
            total_jobs: 0,
            total_points: 0,
            reviews: 0,
        }),
{
}

/// A rating is accepted exactly when it is from 1 to 5, a job registry is
/// configured, the job is completed, the caller is its client or its
/// freelancer, and the caller has not rated that job before.
pub proof fn lemma_rating_accepted_when(s: ReputationState, caller: Address, job_id: u64, score: u32, job: JobRecord)
    ensures
        s.rating_rejection(caller, job_id, score, job) is None <==> {
            &&& 1 <= score <= 5
            &&& s.job_registry is Some
            &&& job.status == JobStatus::Completed
            &&& (caller == job.client || job.freelancer == Some(caller))
            &&& !s.reviewed.contains(Review { job_id, reviewer: caller })
        },
{
}

} // verus!
