//! What holds of the engine whatever it is asked: the invariants that every
//! call keeps, and the laws that relate one call to the next.
//!
//! The laws are stated over [`ReviewView`], the mathematical state that the
//! contracts of the engine's methods speak of.

use vstd::prelude::*;

use crate::ballot::{lemma_cast_consistent, spec_effective_threshold, BallotView, Direction};
use crate::engine::{Outcome, ReviewView};
use crate::error::StateError;
use crate::owner::Owner;
use crate::records::{AssetView, ContentView, InitialState, ReviewerView};

verus! {

/// Every pending application for accreditation is filed under its candidate, with
/// tallies that account for exactly its voters, and no candidate is
/// accredited already.
pub open spec fn candidates_sound(state: ReviewView) -> bool {
    forall|candidate: Owner| #[trigger]
        state.reviewer_applications.contains_key(candidate) ==> {
            &&& state.reviewer_applications[candidate].reviewer == candidate
            &&& state.reviewer_applications[candidate].ballot.consistent()
            &&& !state.reviewers.contains_key(candidate)
        }
}

/// Every pending content submission is filed under its identifier, with
/// tallies that account for exactly its voters.
pub open spec fn contents_sound(state: ReviewView) -> bool {
    forall|cid: Seq<char>| #[trigger]
        state.content_applications.contains_key(cid) ==> {
            &&& state.content_applications[cid].cid == cid
            &&& state.content_applications[cid].ballot.consistent()
        }
}

/// Every pending asset submission is filed under its collection, with
/// tallies that account for exactly its voters.
pub open spec fn assets_sound(state: ReviewView) -> bool {
    forall|collection_id: u64| #[trigger]
        state.asset_applications.contains_key(collection_id) ==> {
            &&& state.asset_applications[collection_id].collection_id == collection_id
            &&& state.asset_applications[collection_id].ballot.consistent()
        }
}

/// The invariant of the engine: the member count is the number of
/// accredited members, each of them is filed under their own identity,
/// and the three ledgers are sound.
pub open spec fn sound(state: ReviewView) -> bool {
    &&& state.reviewers.dom().finite()
    &&& state.reviewers.dom().len() == state.reviewer_number
    &&& forall|reviewer: Owner| #[trigger]
        state.reviewers.contains_key(reviewer) ==> state.reviewers[reviewer].reviewer == reviewer
    &&& candidates_sound(state)
    &&& contents_sound(state)
    &&& assets_sound(state)
}

/// The quorum in force is the smaller of the configured threshold and the
/// number of accredited members: it never exceeds either, and it is one
/// of the two.
pub proof fn law_quorum_is_bounded(configured: u16, reviewer_number: u16)
    ensures
        spec_effective_threshold(configured, reviewer_number) <= configured,
        spec_effective_threshold(configured, reviewer_number) <= reviewer_number,
        spec_effective_threshold(configured, reviewer_number) == configured
            || spec_effective_threshold(configured, reviewer_number) == reviewer_number,
{
}

/// With a single accredited member and a threshold of at least one, one
/// vote decides.
pub proof fn law_single_reviewer_decides(
    ballot: BallotView,
    direction: Direction,
    configured: u16,
)
    requires
        ballot.tally(direction) >= 1,
    ensures
        ballot.resolves(direction, configured, 1),
{
}

/// The three ledgers are in order by themselves, whoever is accredited:
/// every pending entry is filed under its own key, with tallies that
/// account for exactly its voters.
pub open spec fn ledgers_sound(state: ReviewView) -> bool {
    &&& forall|candidate: Owner| #[trigger]
        state.reviewer_applications.contains_key(candidate) ==> {
            &&& state.reviewer_applications[candidate].reviewer == candidate
            &&& state.reviewer_applications[candidate].ballot.consistent()
        }
    &&& contents_sound(state)
    &&& assets_sound(state)
}

/// A sound state has its ledgers in order.
pub proof fn law_sound_ledgers(state: ReviewView)
    requires
        sound(state),
    ensures
        ledgers_sound(state),
{
}

/// Genesis keeps every pending application, and yields a sound state where
/// the ledgers were in order and the creator is not a candidate. The
/// creator, and nobody else, is accredited afterwards.
pub proof fn law_initialize_is_sound(state: ReviewView, creator: Owner, config: InitialState)
    requires
        ledgers_sound(state),
        !state.reviewer_applications.contains_key(creator),
    ensures
        sound(state.initialize(creator, config)),
        forall|owner: Owner|
            state.initialize(creator, config).is_reviewer(owner) <==> owner == creator,
        state.initialize(creator, config).reviewer_applications == state.reviewer_applications,
        state.initialize(creator, config).content_applications == state.content_applications,
        state.initialize(creator, config).asset_applications == state.asset_applications,
{
    let next = state.initialize(creator, config);
    assert(next.reviewers.dom() =~= Set::<Owner>::empty().insert(creator));
    assert(candidates_sound(next));
}

/// Genesis on a blank state yields a sound state in which the creator, and
/// nobody else, is accredited, and nothing is pending.
pub proof fn law_genesis_is_sound(creator: Owner, config: InitialState)
    ensures
        sound(ReviewView::genesis(creator, config)),
        forall|owner: Owner|
            ReviewView::genesis(creator, config).is_reviewer(owner) <==> owner == creator,
        ReviewView::genesis(creator, config).reviewer_number == 1,
        ReviewView::genesis(creator, config).thresholds == config,
        ReviewView::genesis(creator, config).reviewer_applications == Map::<
            Owner,
            ReviewerView,
        >::empty(),
        ReviewView::genesis(creator, config).content_applications == Map::<
            Seq<char>,
            ContentView,
        >::empty(),
        ReviewView::genesis(creator, config).asset_applications == Map::<u64, AssetView>::empty(),
{
    law_initialize_is_sound(ReviewView::blank(), creator, config);
}

/// An application for accreditation keeps the state sound.
pub proof fn law_apply_reviewer_keeps_sound(state: ReviewView, owner: Owner, resume: Seq<char>)
    requires
        sound(state),
    ensures
        state.apply_reviewer(owner, resume) matches Ok(next) ==> sound(next),
{
    if let Ok(next) = state.apply_reviewer(owner, resume) {
        assert(BallotView::empty().voters() =~= Set::<Owner>::empty());
        assert(candidates_sound(next));
    }
}

/// A change of resume keeps the state sound, and touches neither the
/// tallies nor who is accredited or pending.
pub proof fn law_update_resume_keeps_sound(state: ReviewView, owner: Owner, resume: Seq<char>)
    requires
        sound(state),
    ensures
        state.update_reviewer_resume(owner, resume) matches Ok(next) ==> {
            &&& sound(next)
            &&& next.reviewers.dom() == state.reviewers.dom()
            &&& next.reviewer_applications.dom() == state.reviewer_applications.dom()
            &&& next.reviewer_number == state.reviewer_number
        },
{
    if let Ok(next) = state.update_reviewer_resume(owner, resume) {
        if state.reviewers.contains_key(owner) {
            assert(next.reviewers.dom() =~= state.reviewers.dom());
            assert(next.reviewer_applications == state.reviewer_applications);
        } else {
            assert(next.reviewer_applications.dom() =~= state.reviewer_applications.dom());
            assert(next.reviewers == state.reviewers);
        }
        assert(candidates_sound(next));
    }
}

/// A vote on a candidacy keeps the state sound: no tally drifts from its
/// voters, and the member count stays the number of accredited members.
pub proof fn law_vote_on_reviewer_keeps_sound(
    state: ReviewView,
    caster: Owner,
    candidate: Owner,
    direction: Direction,
)
    requires
        sound(state),
    ensures
        state.vote_on_reviewer(caster, candidate, direction) matches Ok((next, _)) ==> sound(next),
{
    if let Ok((next, outcome)) = state.vote_on_reviewer(caster, candidate, direction) {
        let pending = state.reviewer_applications[candidate];
        lemma_cast_consistent(pending.ballot, caster, direction);
        match outcome {
            Outcome::Pending => {
                assert(next.reviewers == state.reviewers);
            },
            Outcome::Approved(_) => {
                assert(!state.reviewers.dom().contains(candidate));
                assert(next.reviewers.dom() =~= state.reviewers.dom().insert(candidate));
            },
            Outcome::Rejected => {
                assert(next.reviewers == state.reviewers);
            },
        }
        assert(candidates_sound(next));
    }
}

/// Filing a content submission whose tallies account for its voters keeps
/// the state sound.
pub proof fn law_submit_content_keeps_sound(state: ReviewView, content: ContentView)
    requires
        sound(state),
        content.ballot.consistent(),
    ensures
        sound(state.submit_content(content)),
{
    let next = state.submit_content(content);
    assert(candidates_sound(next));
    assert(contents_sound(next));
}

/// A vote on a content submission keeps the state sound.
pub proof fn law_vote_on_content_keeps_sound(
    state: ReviewView,
    caster: Owner,
    cid: Seq<char>,
    direction: Direction,
)
    requires
        sound(state),
    ensures
        state.vote_on_content(caster, cid, direction) matches Ok((next, _)) ==> sound(next),
{
    if let Ok((next, _)) = state.vote_on_content(caster, cid, direction) {
        lemma_cast_consistent(state.content_applications[cid].ballot, caster, direction);
        assert(candidates_sound(next));
        assert(contents_sound(next));
    }
}

/// Filing an asset submission whose tallies account for its voters keeps
/// the state sound.
pub proof fn law_submit_asset_keeps_sound(state: ReviewView, asset: AssetView)
    requires
        sound(state),
        asset.ballot.consistent(),
    ensures
        sound(state.submit_asset(asset)),
{
    let next = state.submit_asset(asset);
    assert(candidates_sound(next));
    assert(assets_sound(next));
}

/// A vote on an asset submission keeps the state sound.
pub proof fn law_vote_on_asset_keeps_sound(
    state: ReviewView,
    caster: Owner,
    collection_id: u64,
    direction: Direction,
)
    requires
        sound(state),
    ensures
        state.vote_on_asset(caster, collection_id, direction) matches Ok((next, _)) ==> sound(
            next,
        ),
{
    if let Ok((next, _)) = state.vote_on_asset(caster, collection_id, direction) {
        lemma_cast_consistent(state.asset_applications[collection_id].ballot, caster, direction);
        assert(candidates_sound(next));
        assert(assets_sound(next));
    }
}

/// A vote by `caster` in `direction`, on one of the three kinds of
/// application.
pub enum Vote {
    Reviewer { caster: Owner, candidate: Owner, direction: Direction },
    Content { caster: Owner, cid: Seq<char>, direction: Direction },
    Asset { caster: Owner, collection_id: u64, direction: Direction },
}

/// The state after `vote` was cast: a vote that is refused leaves the state
/// as it was.
pub open spec fn after_vote(state: ReviewView, vote: Vote) -> ReviewView {
    match vote {
        Vote::Reviewer { caster, candidate, direction } => match state.vote_on_reviewer(
            caster,
            candidate,
            direction,
        ) {
            Ok((next, _)) => next,
            Err(_) => state,
        },
        Vote::Content { caster, cid, direction } => match state.vote_on_content(
            caster,
            cid,
            direction,
        ) {
            Ok((next, _)) => next,
            Err(_) => state,
        },
        Vote::Asset { caster, collection_id, direction } => match state.vote_on_asset(
            caster,
            collection_id,
            direction,
        ) {
            Ok((next, _)) => next,
            Err(_) => state,
        },
    }
}

/// The state after the votes of `votes` were cast in order.
pub open spec fn after_votes(state: ReviewView, votes: Seq<Vote>) -> ReviewView
    decreases votes.len(),
{
    if votes.len() == 0 {
        state
    } else {
        after_vote(after_votes(state, votes.drop_last()), votes.last())
    }
}

/// No tally drifts: whatever votes are cast on a sound state, in whatever
/// order and whether they succeed or not, the state stays sound. In
/// particular every pending application keeps as many voters as its two
/// tallies add up to.
pub proof fn law_votes_keep_sound(state: ReviewView, votes: Seq<Vote>)
    requires
        sound(state),
    ensures
        sound(after_votes(state, votes)),
    decreases votes.len(),
{
    if votes.len() > 0 {
        law_votes_keep_sound(state, votes.drop_last());
        let before = after_votes(state, votes.drop_last());
        match votes.last() {
            Vote::Reviewer { caster, candidate, direction } => {
                law_vote_on_reviewer_keeps_sound(before, caster, candidate, direction);
            },
            Vote::Content { caster, cid, direction } => {
                law_vote_on_content_keeps_sound(before, caster, cid, direction);
            },
            Vote::Asset { caster, collection_id, direction } => {
                law_vote_on_asset_keeps_sound(before, caster, collection_id, direction);
            },
        }
    }
}

/// A member votes on a content submission at most once: after a vote that
/// succeeded, a second vote by the same caster, in either direction, fails
/// with `AlreadyVoted`, and the first vote added exactly the caster to the
/// voters.
pub proof fn law_content_vote_counts_once(
    state: ReviewView,
    caster: Owner,
    cid: Seq<char>,
    first: Direction,
    second: Direction,
)
    requires
        state.content_applications.contains_key(cid) ==> state.content_applications[cid].ballot.voters().finite(),
        state.vote_on_content(caster, cid, first) is Ok,
    ensures
        ({
            let next = state.vote_on_content(caster, cid, first)->Ok_0.0;
            &&& next.vote_on_content(caster, cid, second) == Err::<
                (ReviewView, Outcome<ContentView>),
                StateError,
            >(StateError::AlreadyVoted)
            &&& next.content_applications[cid].ballot.voters()
                == state.content_applications[cid].ballot.voters().insert(caster)
            &&& next.content_applications[cid].ballot.voters().len()
                == state.content_applications[cid].ballot.voters().len() + 1
        }),
{
    let next = state.vote_on_content(caster, cid, first)->Ok_0.0;
    assert(next.content_applications[cid].ballot.voters()
        =~= state.content_applications[cid].ballot.voters().insert(caster));
}

/// A member votes on an asset submission at most once: after a vote that
/// succeeded, a second vote by the same caster, in either direction, fails
/// with `AlreadyVoted`, and the first vote added exactly the caster to the
/// voters.
pub proof fn law_asset_vote_counts_once(
    state: ReviewView,
    caster: Owner,
    collection_id: u64,
    first: Direction,
    second: Direction,
)
    requires
        state.asset_applications.contains_key(collection_id)
            ==> state.asset_applications[collection_id].ballot.voters().finite(),
        state.vote_on_asset(caster, collection_id, first) is Ok,
    ensures
        ({
            let next = state.vote_on_asset(caster, collection_id, first)->Ok_0.0;
            &&& next.vote_on_asset(caster, collection_id, second) == Err::<
                (ReviewView, Outcome<AssetView>),
                StateError,
            >(StateError::AlreadyVoted)
            &&& next.asset_applications[collection_id].ballot.voters()
                == state.asset_applications[collection_id].ballot.voters().insert(caster)
            &&& next.asset_applications[collection_id].ballot.voters().len()
                == state.asset_applications[collection_id].ballot.voters().len() + 1
        }),
{
    let next = state.vote_on_asset(caster, collection_id, first)->Ok_0.0;
    assert(next.asset_applications[collection_id].ballot.voters()
        =~= state.asset_applications[collection_id].ballot.voters().insert(caster));
}

/// A member votes on a candidacy at most once: after a vote that
/// succeeded and left the candidacy pending, a second vote by the same
/// caster, in either direction, fails with `AlreadyVoted`, and the first
/// vote added exactly the caster to the voters.
pub proof fn law_reviewer_vote_counts_once(
    state: ReviewView,
    caster: Owner,
    candidate: Owner,
    first: Direction,
    second: Direction,
)
    requires
        state.reviewer_applications.contains_key(candidate)
            ==> state.reviewer_applications[candidate].ballot.voters().finite(),
        state.vote_on_reviewer(caster, candidate, first) matches Ok((_, outcome))
            && outcome is Pending,
    ensures
        ({
            let next = state.vote_on_reviewer(caster, candidate, first)->Ok_0.0;
            &&& next.vote_on_reviewer(caster, candidate, second) is Err
            &&& next.vote_on_reviewer(caster, candidate, second)->Err_0 == StateError::AlreadyVoted
            &&& next.reviewer_applications[candidate].ballot.voters()
                == state.reviewer_applications[candidate].ballot.voters().insert(caster)
            &&& next.reviewer_applications[candidate].ballot.voters().len()
                == state.reviewer_applications[candidate].ballot.voters().len() + 1
        }),
{
    let next = state.vote_on_reviewer(caster, candidate, first)->Ok_0.0;
    assert(next.reviewer_applications[candidate].ballot.voters()
        =~= state.reviewer_applications[candidate].ballot.voters().insert(caster));
}

/// Once a vote has resolved a candidacy, either way, no application is
/// pending for the candidate: a further vote fails with `UnknownCandidate`.
pub proof fn law_resolved_candidacy_is_closed(
    state: ReviewView,
    caster: Owner,
    candidate: Owner,
    first: Direction,
    second: Direction,
)
    requires
        state.vote_on_reviewer(caster, candidate, first) matches Ok((_, outcome))
            && !(outcome is Pending),
    ensures
        ({
            let next = state.vote_on_reviewer(caster, candidate, first)->Ok_0.0;
            &&& !next.reviewer_applications.contains_key(candidate)
            &&& next.vote_on_reviewer(caster, candidate, second) is Err
            &&& next.vote_on_reviewer(caster, candidate, second)->Err_0
                == StateError::UnknownCandidate
        }),
{
}

/// The ballot of a candidacy that an approving vote has just been cast on
/// is consistent where it was before.
proof fn lemma_approval_keeps_consistent(state: ReviewView, caster: Owner, candidate: Owner)
    requires
        state.vote_on_reviewer(caster, candidate, Direction::Approve) is Ok,
    ensures
        state.reviewer_applications[candidate].ballot.consistent()
            ==> state.reviewer_applications[candidate].ballot.cast(
            caster,
            Direction::Approve,
        )->Ok_0.consistent(),
{
    let ballot = state.reviewer_applications[candidate].ballot;
    if ballot.consistent() {
        lemma_cast_consistent(ballot, caster, Direction::Approve);
    }
}

/// Promotion: an approving vote that resolves a candidacy removes the
/// candidate from the pending applications, files the record in the
/// registry, and adds exactly one to the member count; from then on the
/// candidate is accredited. Nobody else's accreditation changes. The record
/// filed is the candidate's own, with the one approval added, and its
/// tallies account for its voters where they did before.
pub proof fn law_promotion(state: ReviewView, caster: Owner, candidate: Owner)
    requires
        state.vote_on_reviewer(caster, candidate, Direction::Approve) matches Ok((_, outcome))
            && outcome is Approved,
    ensures
        ({
            let (next, outcome) = state.vote_on_reviewer(caster, candidate, Direction::Approve)->Ok_0;
            &&& !next.reviewer_applications.contains_key(candidate)
            &&& next.is_reviewer(candidate)
            &&& next.reviewers[candidate] == outcome->Approved_0
            &&& next.reviewer_number == state.reviewer_number + 1
            &&& forall|other: Owner|
                other != candidate ==> (next.is_reviewer(other) <==> state.is_reviewer(other))
            &&& next.reviewers[candidate].reviewer == state.reviewer_applications[candidate].reviewer
            &&& next.reviewers[candidate].resume == state.reviewer_applications[candidate].resume
            &&& next.reviewers[candidate].ballot.approved
                == state.reviewer_applications[candidate].ballot.approved + 1
            &&& next.reviewers[candidate].ballot.rejected
                == state.reviewer_applications[candidate].ballot.rejected
            &&& state.reviewer_applications[candidate].ballot.consistent()
                ==> next.reviewers[candidate].ballot.consistent()
        }),
{
    lemma_approval_keeps_consistent(state, caster, candidate);
}

/// Rejection: a rejecting vote that resolves a candidacy removes the
/// candidate from the pending applications and leaves the registry and the
/// member count as they were; in a sound state the candidate is
/// therefore not accredited afterwards.
pub proof fn law_rejection(state: ReviewView, caster: Owner, candidate: Owner)
    requires
        state.vote_on_reviewer(caster, candidate, Direction::Reject) matches Ok((_, outcome))
            && outcome is Rejected,
    ensures
        ({
            let next = state.vote_on_reviewer(caster, candidate, Direction::Reject)->Ok_0.0;
            &&& !next.reviewer_applications.contains_key(candidate)
            &&& next.reviewers == state.reviewers
            &&& next.reviewer_number == state.reviewer_number
            &&& sound(state) ==> !next.is_reviewer(candidate)
        }),
{
}

/// Only accredited members vote: a vote by anyone else, on any kind of
/// application and in either direction, fails with `NotAccredited`.
pub proof fn law_outsiders_cannot_vote(
    state: ReviewView,
    caster: Owner,
    candidate: Owner,
    cid: Seq<char>,
    collection_id: u64,
    direction: Direction,
)
    requires
        !state.is_reviewer(caster),
    ensures
        state.vote_on_reviewer(caster, candidate, direction) is Err,
        state.vote_on_reviewer(caster, candidate, direction)->Err_0 == StateError::NotAccredited,
        state.vote_on_content(caster, cid, direction) is Err,
        state.vote_on_content(caster, cid, direction)->Err_0 == StateError::NotAccredited,
        state.vote_on_asset(caster, collection_id, direction) is Err,
        state.vote_on_asset(caster, collection_id, direction)->Err_0 == StateError::NotAccredited,
{
}

/// Accreditation is never lost: whoever is accredited before a call is
/// accredited after it.
pub proof fn law_accreditation_is_kept(
    state: ReviewView,
    owner: Owner,
    caster: Owner,
    candidate: Owner,
    cid: Seq<char>,
    collection_id: u64,
    direction: Direction,
    resume: Seq<char>,
)
    requires
        state.is_reviewer(owner),
    ensures
        state.apply_reviewer(candidate, resume) matches Ok(next) ==> next.is_reviewer(owner),
        state.update_reviewer_resume(candidate, resume) matches Ok(next) ==> next.is_reviewer(
            owner,
        ),
        state.vote_on_reviewer(caster, candidate, direction) matches Ok((next, _))
            ==> next.is_reviewer(owner),
        state.vote_on_content(caster, cid, direction) matches Ok((next, _)) ==> next.is_reviewer(
            owner,
        ),
        state.vote_on_asset(caster, collection_id, direction) matches Ok((next, _))
            ==> next.is_reviewer(owner),
{
}

} // verus!
