//! The engine: the registry of accredited members, the three ledgers of
//! pending applications, and the calls that move them.
//!
//! [`ReviewView`] is the mathematical state, and its functions say what each
//! call does to it. [`Review`] is the state in memory; the contract of each
//! of its methods is the corresponding function of the view. A call that
//! fails leaves the state as it found it. Genesis on a blank state
//! establishes the invariant [`sound`], and every later call keeps it: no
//! tally drifts from its voters, and the member count stays the number of
//! accredited members.
//!
//! The quorum for every kind of application is taken from the two
//! thresholds for accreditation: the content and asset thresholds are set at
//! genesis and kept, and no vote consults them.

use vstd::prelude::*;

use crate::ballot::{BallotView, Direction};
use crate::error::StateError;
use crate::laws::{
    law_apply_reviewer_keeps_sound,
    law_initialize_is_sound,
    law_submit_asset_keeps_sound,
    law_submit_content_keeps_sound,
    law_update_resume_keeps_sound,
    law_vote_on_asset_keeps_sound,
    law_vote_on_content_keeps_sound,
    law_vote_on_reviewer_keeps_sound,
    ledgers_sound,
    sound,
};
use crate::owner::Owner;
use crate::records::{
    Asset,
    AssetView,
    Content,
    ContentView,
    InitialState,
    Reviewer,
    ReviewerView,
};
use crate::table::Table;

verus! {

/// What a vote did to the application it was cast on.
pub enum Outcome<R> {
    /// No quorum yet: the vote is recorded and the application stays pending.
    Pending,
    /// The approving votes reached the quorum; the record as resolved.
    Approved(R),
    /// The rejecting votes reached the quorum.
    Rejected,
}

impl<R: View> View for Outcome<R> {
    type V = Outcome<R::V>;

    open spec fn view(&self) -> Outcome<R::V> {
        match self {
            Outcome::Pending => Outcome::Pending,
            Outcome::Approved(record) => Outcome::Approved(record@),
            Outcome::Rejected => Outcome::Rejected,
        }
    }
}

/// The entry of `table` under `key`, if there is one.
pub open spec fn lookup<K, V>(table: Map<K, V>, key: K) -> Option<V> {
    if table.contains_key(key) {
        Some(table[key])
    } else {
        None
    }
}

/// The mathematical state of the engine.
pub struct ReviewView {
    /// The accredited members: membership gives the right to vote.
    pub reviewers: Map<Owner, ReviewerView>,
    /// The number of accredited members, counted up on each promotion.
    pub reviewer_number: u16,
    /// The pending applications for accreditation, by candidate.
    pub reviewer_applications: Map<Owner, ReviewerView>,
    /// The pending content submissions, by content identifier.
    pub content_applications: Map<Seq<char>, ContentView>,
    /// The pending asset submissions, by collection.
    pub asset_applications: Map<u64, AssetView>,
    /// The thresholds set at genesis.
    pub thresholds: InitialState,
}

impl ReviewView {
    /// The state before genesis: nothing registered, every threshold zero.
    pub open spec fn blank() -> ReviewView {
        ReviewView {
            reviewers: Map::empty(),
            reviewer_number: 0,
            reviewer_applications: Map::empty(),
            content_applications: Map::empty(),
            asset_applications: Map::empty(),
            thresholds: InitialState {
                content_approved_threshold: 0,
                content_rejected_threshold: 0,
                asset_approved_threshold: 0,
                asset_rejected_threshold: 0,
                reviewer_approved_threshold: 0,
                reviewer_rejected_threshold: 0,
            },
        }
    }

    /// The state after genesis on `self`: the registry holds `creator` and
    /// nobody else, the member count is 1, and the thresholds are those of
    /// `state`. The pending applications are kept as they are.
    pub open spec fn initialize(self, creator: Owner, state: InitialState) -> ReviewView {
        ReviewView {
            reviewers: Map::empty().insert(creator, ReviewerView::founder(creator)),
            reviewer_number: 1,
            thresholds: state,
            ..self
        }
    }

    /// The state at genesis: `creator` is the one accredited member, no
    /// application is pending, and the thresholds are those of `state`.
    pub open spec fn genesis(creator: Owner, state: InitialState) -> ReviewView {
        ReviewView::blank().initialize(creator, state)
    }

    /// Whether `owner` is an accredited member.
    pub open spec fn is_reviewer(self, owner: Owner) -> bool {
        self.reviewers.contains_key(owner)
    }

    /// The configured threshold for votes in `direction`.
    pub open spec fn configured(self, direction: Direction) -> u16 {
        match direction {
            Direction::Approve => self.thresholds.reviewer_approved_threshold,
            Direction::Reject => self.thresholds.reviewer_rejected_threshold,
        }
    }

    /// Whether `ballot` resolves in `direction` under the quorum in force.
    pub open spec fn resolves(self, ballot: BallotView, direction: Direction) -> bool {
        ballot.resolves(direction, self.configured(direction), self.reviewer_number)
    }

    /// `owner` applies for accreditation with `resume`.
    pub open spec fn apply_reviewer(self, owner: Owner, resume: Seq<char>) -> Result<
        ReviewView,
        StateError,
    > {
        if self.is_reviewer(owner) {
            Err(StateError::AlreadyAccredited)
        } else if self.reviewer_applications.contains_key(owner) {
            Err(StateError::DuplicateApplication)
        } else {
            Ok(
                ReviewView {
                    reviewer_applications: self.reviewer_applications.insert(
                        owner,
                        ReviewerView::candidate(owner, resume),
                    ),
                    ..self
                },
            )
        }
    }

    /// `owner` replaces their resume: in the registry if accredited, else
    /// in the pending application.
    pub open spec fn update_reviewer_resume(self, owner: Owner, resume: Seq<char>) -> Result<
        ReviewView,
        StateError,
    > {
        if self.reviewers.contains_key(owner) {
            Ok(
                ReviewView {
                    reviewers: self.reviewers.insert(
                        owner,
                        self.reviewers[owner].with_resume(resume),
                    ),
                    ..self
                },
            )
        } else if self.reviewer_applications.contains_key(owner) {
            Ok(
                ReviewView {
                    reviewer_applications: self.reviewer_applications.insert(
                        owner,
                        self.reviewer_applications[owner].with_resume(resume),
                    ),
                    ..self
                },
            )
        } else {
            Err(StateError::UnknownReviewer)
        }
    }

    /// The precondition shared by all votes: the caster is accredited, the
    /// application exists (else `unknown`), and the caster has not voted on
    /// it before.
    pub open spec fn admits(self, caster: Owner, ballot: Option<BallotView>, unknown: StateError)
        -> Result<(), StateError> {
        if !self.is_reviewer(caster) {
            Err(StateError::NotAccredited)
        } else {
            match ballot {
                None => Err(unknown),
                Some(ballot) => if ballot.has_voted(caster) {
                    Err(StateError::AlreadyVoted)
                } else {
                    Ok(())
                },
            }
        }
    }

    /// The ballot of the pending application of `candidate`, if any.
    pub open spec fn reviewer_ballot(self, candidate: Owner) -> Option<BallotView> {
        match lookup(self.reviewer_applications, candidate) {
            Some(record) => Some(record.ballot),
            None => None,
        }
    }

    /// The ballot of the pending submission `cid`, if any.
    pub open spec fn content_ballot(self, cid: Seq<char>) -> Option<BallotView> {
        match lookup(self.content_applications, cid) {
            Some(record) => Some(record.ballot),
            None => None,
        }
    }

    /// The ballot of the pending submission for `collection_id`, if any.
    pub open spec fn asset_ballot(self, collection_id: u64) -> Option<BallotView> {
        match lookup(self.asset_applications, collection_id) {
            Some(record) => Some(record.ballot),
            None => None,
        }
    }

    /// Whether `caster` may vote on the candidacy of `candidate`.
    pub open spec fn validate_reviewer_review(self, caster: Owner, candidate: Owner) -> Result<
        (),
        StateError,
    > {
        self.admits(caster, self.reviewer_ballot(candidate), StateError::UnknownCandidate)
    }

    /// Whether `caster` may vote on the content submission `cid`.
    pub open spec fn validate_content_review(self, caster: Owner, cid: Seq<char>) -> Result<
        (),
        StateError,
    > {
        self.admits(caster, self.content_ballot(cid), StateError::UnknownContent)
    }

    /// Whether `caster` may vote on the asset submission for
    /// `collection_id`.
    pub open spec fn validate_asset_review(self, caster: Owner, collection_id: u64) -> Result<
        (),
        StateError,
    > {
        self.admits(caster, self.asset_ballot(collection_id), StateError::UnknownAsset)
    }

    /// `caster` votes in `direction` on the candidacy of `candidate`.
    ///
    /// The vote is recorded; where it completes the quorum, an approval
    /// moves the record into the registry and counts the new member, and
    /// a rejection drops the candidacy.
    pub open spec fn vote_on_reviewer(self, caster: Owner, candidate: Owner, direction: Direction)
        -> Result<(ReviewView, Outcome<ReviewerView>), StateError> {
        match self.validate_reviewer_review(caster, candidate) {
            Err(error) => Err(error),
            Ok(()) => {
                let pending = self.reviewer_applications[candidate];
                match pending.ballot.cast(caster, direction) {
                    Err(error) => Err(error),
                    Ok(ballot) => {
                        let record = pending.with_ballot(ballot);
                        if !self.resolves(ballot, direction) {
                            Ok(
                                (
                                    ReviewView {
                                        reviewer_applications: self.reviewer_applications.insert(
                                            candidate,
                                            record,
                                        ),
                                        ..self
                                    },
                                    Outcome::Pending,
                                ),
                            )
                        } else {
                            match direction {
                                Direction::Approve => if self.reviewer_number == u16::MAX {
                                    Err(StateError::ArithmeticOverflow)
                                } else {
                                    Ok(
                                        (
                                            ReviewView {
                                                reviewers: self.reviewers.insert(candidate, record),
                                                reviewer_number: (self.reviewer_number + 1) as u16,
                                                reviewer_applications:
                                                    self.reviewer_applications.remove(candidate),
                                                ..self
                                            },
                                            Outcome::Approved(record),
                                        ),
                                    )
                                },
                                Direction::Reject => Ok(
                                    (
                                        ReviewView {
                                            reviewer_applications:
                                                self.reviewer_applications.remove(candidate),
                                            ..self
                                        },
                                        Outcome::Rejected,
                                    ),
                                ),
                            }
                        }
                    },
                }
            },
        }
    }

    /// `content` is filed under its identifier, replacing what was pending
    /// there.
    pub open spec fn submit_content(self, content: ContentView) -> ReviewView {
        ReviewView {
            content_applications: self.content_applications.insert(content.cid, content),
            ..self
        }
    }

    /// `caster` votes in `direction` on the content submission `cid`.
    ///
    /// The vote is recorded and the submission stays filed, resolved or not.
    pub open spec fn vote_on_content(self, caster: Owner, cid: Seq<char>, direction: Direction)
        -> Result<(ReviewView, Outcome<ContentView>), StateError> {
        match self.validate_content_review(caster, cid) {
            Err(error) => Err(error),
            Ok(()) => {
                let pending = self.content_applications[cid];
                match pending.ballot.cast(caster, direction) {
                    Err(error) => Err(error),
                    Ok(ballot) => {
                        let record = pending.with_ballot(ballot);
                        Ok(
                            (
                                ReviewView {
                                    content_applications: self.content_applications.insert(
                                        cid,
                                        record,
                                    ),
                                    ..self
                                },
                                if !self.resolves(ballot, direction) {
                                    Outcome::Pending
                                } else {
                                    match direction {
                                        Direction::Approve => Outcome::Approved(record),
                                        Direction::Reject => Outcome::Rejected,
                                    }
                                },
                            ),
                        )
                    },
                }
            },
        }
    }

    /// `asset` is filed under its collection, replacing what was pending
    /// there.
    pub open spec fn submit_asset(self, asset: AssetView) -> ReviewView {
        ReviewView {
            asset_applications: self.asset_applications.insert(asset.collection_id, asset),
            ..self
        }
    }

    /// `caster` votes in `direction` on the asset submission for
    /// `collection_id`.
    ///
    /// The vote is recorded and the submission stays filed, resolved or not.
    pub open spec fn vote_on_asset(self, caster: Owner, collection_id: u64, direction: Direction)
        -> Result<(ReviewView, Outcome<AssetView>), StateError> {
        match self.validate_asset_review(caster, collection_id) {
            Err(error) => Err(error),
            Ok(()) => {
                let pending = self.asset_applications[collection_id];
                match pending.ballot.cast(caster, direction) {
                    Err(error) => Err(error),
                    Ok(ballot) => {
                        let record = pending.with_ballot(ballot);
                        Ok(
                            (
                                ReviewView {
                                    asset_applications: self.asset_applications.insert(
                                        collection_id,
                                        record,
                                    ),
                                    ..self
                                },
                                if !self.resolves(ballot, direction) {
                                    Outcome::Pending
                                } else {
                                    match direction {
                                        Direction::Approve => Outcome::Approved(record),
                                        Direction::Reject => Outcome::Rejected,
                                    }
                                },
                            ),
                        )
                    },
                }
            },
        }
    }
}

/// The state of the engine.
pub struct Review {
    /// The accredited members: membership gives the right to vote.
    pub reviewers: Table<Owner, Reviewer>,
    /// The number of accredited members, counted up on each promotion.
    pub reviewer_number: u16,
    /// The pending applications for accreditation, by candidate.
    pub reviewer_applications: Table<Owner, Reviewer>,
    /// The pending content submissions, by content identifier.
    pub content_applications: Table<String, Content>,
    /// The pending asset submissions, by collection.
    pub asset_applications: Table<u64, Asset>,
    pub content_approved_threshold: u16,
    pub content_rejected_threshold: u16,
    pub asset_approved_threshold: u16,
    pub asset_rejected_threshold: u16,
    pub reviewer_approved_threshold: u16,
    pub reviewer_rejected_threshold: u16,
}

impl View for Review {
    type V = ReviewView;

    open spec fn view(&self) -> ReviewView {
        ReviewView {
            reviewers: self.reviewers@,
            reviewer_number: self.reviewer_number,
            reviewer_applications: self.reviewer_applications@,
            content_applications: self.content_applications@,
            asset_applications: self.asset_applications@,
            thresholds: InitialState {
                content_approved_threshold: self.content_approved_threshold,
                content_rejected_threshold: self.content_rejected_threshold,
                asset_approved_threshold: self.asset_approved_threshold,
                asset_rejected_threshold: self.asset_rejected_threshold,
                reviewer_approved_threshold: self.reviewer_approved_threshold,
                reviewer_rejected_threshold: self.reviewer_rejected_threshold,
            },
        }
    }
}

impl Review {
    /// The state before genesis: nothing registered, every threshold zero.
    pub fn new() -> (review: Self)
        ensures
            review@ == ReviewView::blank(),
    {
        Review {
            reviewers: Table::new(),
            reviewer_number: 0,
            reviewer_applications: Table::new(),
            content_applications: Table::new(),
            asset_applications: Table::new(),
            content_approved_threshold: 0,
            content_rejected_threshold: 0,
            asset_approved_threshold: 0,
            asset_rejected_threshold: 0,
            reviewer_approved_threshold: 0,
            reviewer_rejected_threshold: 0,
        }
    }

    /// Genesis: `creator` becomes the one accredited member, approved once
    /// and with no voters, the member count becomes 1, and each of the six
    /// thresholds is taken from `state`. Always succeeds.
    ///
    /// The registry holds exactly the founder afterwards: whoever was
    /// registered before is no longer. The pending applications are not
    /// touched, so on a blank state the result is the genesis state. The
    /// state after is sound where the pending applications were and none of
    /// them is the creator's own.
    pub fn initialize(&mut self, creator: Owner, state: InitialState) -> (result: Result<
        (),
        StateError,
    >)
        ensures
            result == Ok::<(), StateError>(()),
            final(self)@ == old(self)@.initialize(creator, state),
            final(self)@.reviewer_applications == old(self)@.reviewer_applications,
            final(self)@.content_applications == old(self)@.content_applications,
            final(self)@.asset_applications == old(self)@.asset_applications,
            final(self)@.thresholds == state,
            final(self)@.reviewer_number == 1,
            final(self)@.reviewers == Map::<Owner, ReviewerView>::empty().insert(
                creator,
                ReviewerView::founder(creator),
            ),
            old(self)@ == ReviewView::blank() ==> final(self)@ == ReviewView::genesis(
                creator,
                state,
            ),
            ledgers_sound(old(self)@) && !old(self)@.reviewer_applications.contains_key(creator)
                ==> sound(final(self)@),
    {
        proof {
            if ledgers_sound(self@) && !self@.reviewer_applications.contains_key(creator) {
                law_initialize_is_sound(self@, creator, state);
            }
        }
        self.content_approved_threshold = state.content_approved_threshold;
        self.content_rejected_threshold = state.content_rejected_threshold;
        self.asset_approved_threshold = state.asset_approved_threshold;
        self.asset_rejected_threshold = state.asset_rejected_threshold;
        self.reviewer_approved_threshold = state.reviewer_approved_threshold;
        self.reviewer_rejected_threshold = state.reviewer_rejected_threshold;
        self.reviewers = Table::new();
        self.reviewers.insert(creator, Reviewer::founder(creator));
        self.reviewer_number = 1;
        Ok(())
    }

    /// Whether `owner` is an accredited member. Reads the state only.
    pub fn is_reviewer(&self, owner: Owner) -> (accredited: bool)
        ensures
            accredited == self@.is_reviewer(owner),
    {
        self.reviewers.contains_key(&owner)
    }

    /// The configured threshold for votes in `direction`.
    pub fn configured(&self, direction: Direction) -> (threshold: u16)
        ensures
            threshold == self@.configured(direction),
    {
        match direction {
            Direction::Approve => self.reviewer_approved_threshold,
            Direction::Reject => self.reviewer_rejected_threshold,
        }
    }

    /// Files an application for accreditation by `owner`, with zero tallies
    /// and no voters. Fails with `AlreadyAccredited` if `owner` is
    /// accredited, else with `DuplicateApplication` if an application by
    /// `owner` is pending.
    pub fn apply_reviewer(&mut self, owner: Owner, resume: String) -> (result: Result<
        (),
        StateError,
    >)
        ensures
            match old(self)@.apply_reviewer(owner, resume@) {
                Ok(next) => result == Ok::<(), StateError>(()) && final(self)@ == next,
                Err(error) => result == Err::<(), StateError>(error) && final(self)@ == old(self)@,
            },
            sound(old(self)@) ==> sound(final(self)@),
    {
        proof {
            if sound(self@) {
                law_apply_reviewer_keeps_sound(self@, owner, resume@);
            }
        }
        if self.reviewers.contains_key(&owner) {
            return Err(StateError::AlreadyAccredited);
        }
        if self.reviewer_applications.contains_key(&owner) {
            return Err(StateError::DuplicateApplication);
        }
        self.reviewer_applications.insert(owner, Reviewer::candidate(owner, resume));
        Ok(())
    }

    /// Replaces the resume of `owner`: in the registry if `owner` is
    /// accredited, else in the pending application. Fails with
    /// `UnknownReviewer` if `owner` is found in neither.
    pub fn update_reviewer_resume(&mut self, owner: Owner, resume: String) -> (result: Result<
        (),
        StateError,
    >)
        ensures
            match old(self)@.update_reviewer_resume(owner, resume@) {
                Ok(next) => result == Ok::<(), StateError>(()) && final(self)@ == next,
                Err(error) => result == Err::<(), StateError>(error) && final(self)@ == old(self)@,
            },
            sound(old(self)@) ==> sound(final(self)@),
    {
        proof {
            if sound(self@) {
                law_update_resume_keeps_sound(self@, owner, resume@);
            }
        }
        match self.reviewers.get(&owner) {
            Some(found) => {
                let mut record = found.clone();
                record.resume = Some(resume);
                self.reviewers.insert(owner, record);
                return Ok(());
            },
            None => {},
        }
        match self.reviewer_applications.get(&owner) {
            Some(found) => {
                let mut record = found.clone();
                record.resume = Some(resume);
                self.reviewer_applications.insert(owner, record);
                Ok(())
            },
            None => Err(StateError::UnknownReviewer),
        }
    }

    /// Whether `caster` may vote on the candidacy of `candidate`: fails
    /// with `NotAccredited` if `caster` is not accredited, else with
    /// `UnknownCandidate` if no such application is pending, else with
    /// `AlreadyVoted` if `caster` has voted on it. Reads the state only.
    pub fn validate_reviewer_review(&self, caster: Owner, candidate: Owner) -> (result: Result<
        (),
        StateError,
    >)
        ensures
            result == self@.validate_reviewer_review(caster, candidate),
    {
        if !self.reviewers.contains_key(&caster) {
            return Err(StateError::NotAccredited);
        }
        match self.reviewer_applications.get(&candidate) {
            Some(pending) => {
                if pending.ballot.has_voted(&caster) {
                    Err(StateError::AlreadyVoted)
                } else {
                    Ok(())
                }
            },
            None => Err(StateError::UnknownCandidate),
        }
    }

    /// Casts the vote of `caster` in `direction` on the candidacy of
    /// `candidate`.
    ///
    /// Fails as [`Review::validate_reviewer_review`] does, or with
    /// `ArithmeticOverflow` where a tally or the member count cannot grow.
    /// Otherwise the vote is recorded. Where the votes in `direction` then
    /// reach the quorum, an approval moves the record from the pending
    /// applications into the registry and adds one to the member count,
    /// and a rejection removes the application; else it stays pending.
    pub fn vote_on_reviewer(&mut self, caster: Owner, candidate: Owner, direction: Direction) -> (result:
        Result<Outcome<Reviewer>, StateError>)
        ensures
            match old(self)@.vote_on_reviewer(caster, candidate, direction) {
                Ok((next, outcome)) => result matches Ok(reached) && reached@ == outcome && final(self)@ == next,
                Err(error) => result matches Err(raised) && raised == error && final(self)@
                    == old(self)@,
            },
            sound(old(self)@) ==> sound(final(self)@),
    {
        proof {
            if sound(self@) {
                law_vote_on_reviewer_keeps_sound(self@, caster, candidate, direction);
            }
        }
        if !self.reviewers.contains_key(&caster) {
            return Err(StateError::NotAccredited);
        }
        let mut record = match self.reviewer_applications.get(&candidate) {
            Some(pending) => pending.clone(),
            None => {
                return Err(StateError::UnknownCandidate);
            },
        };
        match record.ballot.cast(caster, direction) {
            Err(error) => {
                return Err(error);
            },
            Ok(()) => {},
        }
        if !record.ballot.resolves(direction, self.configured(direction), self.reviewer_number) {
            self.reviewer_applications.insert(candidate, record);
            return Ok(Outcome::Pending);
        }
        match direction {
            Direction::Approve => {
                if self.reviewer_number == u16::MAX {
                    return Err(StateError::ArithmeticOverflow);
                }
                let promoted = record.clone();
                self.reviewers.insert(candidate, record);
                self.reviewer_applications.remove(&candidate);
                self.reviewer_number = self.reviewer_number + 1;
                Ok(Outcome::Approved(promoted))
            },
            Direction::Reject => {
                self.reviewer_applications.remove(&candidate);
                Ok(Outcome::Rejected)
            },
        }
    }

    /// Casts an approving vote of `owner` on the candidacy of `candidate`,
    /// as [`Review::vote_on_reviewer`] does, and tells whether the candidate
    /// was promoted.
    pub fn approve_reviewer(&mut self, owner: Owner, candidate: Owner) -> (result: Result<
        bool,
        StateError,
    >)
        ensures
            match old(self)@.vote_on_reviewer(owner, candidate, Direction::Approve) {
                Ok((next, outcome)) => result == Ok::<bool, StateError>(outcome is Approved)
                    && final(self)@ == next,
                Err(error) => result == Err::<bool, StateError>(error) && final(self)@ == old(self)@,
            },
            sound(old(self)@) ==> sound(final(self)@),
    {
        match self.vote_on_reviewer(owner, candidate, Direction::Approve) {
            Ok(Outcome::Approved(_)) => Ok(true),
            Ok(_) => Ok(false),
            Err(error) => Err(error),
        }
    }

    /// Casts a rejecting vote of `owner` on the candidacy of `candidate`,
    /// as [`Review::vote_on_reviewer`] does, and tells whether the candidacy
    /// was thereby rejected.
    pub fn reject_reviewer(&mut self, owner: Owner, candidate: Owner) -> (result: Result<
        bool,
        StateError,
    >)
        ensures
            match old(self)@.vote_on_reviewer(owner, candidate, Direction::Reject) {
                Ok((next, outcome)) => result == Ok::<bool, StateError>(outcome is Rejected)
                    && final(self)@ == next,
                Err(error) => result == Err::<bool, StateError>(error) && final(self)@ == old(self)@,
            },
            sound(old(self)@) ==> sound(final(self)@),
    {
        match self.vote_on_reviewer(owner, candidate, Direction::Reject) {
            Ok(Outcome::Rejected) => Ok(true),
            Ok(_) => Ok(false),
            Err(error) => Err(error),
        }
    }

    /// Whether `caster` may vote on the content submission `content_cid`:
    /// fails with `NotAccredited` if `caster` is not accredited, else with
    /// `UnknownContent` if no such submission is pending, else with
    /// `AlreadyVoted` if `caster` has voted on it. Reads the state only.
    pub fn validate_content_review(&self, caster: Owner, content_cid: String) -> (result: Result<
        (),
        StateError,
    >)
        ensures
            result == self@.validate_content_review(caster, content_cid@),
    {
        if !self.reviewers.contains_key(&caster) {
            return Err(StateError::NotAccredited);
        }
        match self.content_applications.get(&content_cid) {
            Some(pending) => {
                if pending.ballot.has_voted(&caster) {
                    Err(StateError::AlreadyVoted)
                } else {
                    Ok(())
                }
            },
            None => Err(StateError::UnknownContent),
        }
    }

    /// Files `content` under its identifier, replacing what was pending
    /// there. Always succeeds.
    pub fn submit_content(&mut self, content: Content) -> (result: Result<(), StateError>)
        ensures
            result == Ok::<(), StateError>(()),
            final(self)@ == old(self)@.submit_content(content@),
            sound(old(self)@) && content@.ballot.consistent() ==> sound(final(self)@),
    {
        proof {
            if sound(self@) && content@.ballot.consistent() {
                law_submit_content_keeps_sound(self@, content@);
            }
        }
        let cid = content.cid.clone();
        self.content_applications.insert(cid, content);
        Ok(())
    }

    /// Casts the vote of `caster` in `direction` on the content submission
    /// `content_cid`.
    ///
    /// Fails as [`Review::validate_content_review`] does, or with
    /// `ArithmeticOverflow` where the tally cannot grow. Otherwise the vote
    /// is recorded and the outcome says whether the votes in `direction`
    /// then reach the quorum; an approval hands back the record. The
    /// submission stays filed either way.
    pub fn vote_on_content(&mut self, caster: Owner, content_cid: String, direction: Direction) -> (result:
        Result<Outcome<Content>, StateError>)
        ensures
            match old(self)@.vote_on_content(caster, content_cid@, direction) {
                Ok((next, outcome)) => result matches Ok(reached) && reached@ == outcome && final(self)@ == next,
                Err(error) => result matches Err(raised) && raised == error && final(self)@
                    == old(self)@,
            },
            sound(old(self)@) ==> sound(final(self)@),
    {
        proof {
            if sound(self@) {
                law_vote_on_content_keeps_sound(self@, caster, content_cid@, direction);
            }
        }
        if !self.reviewers.contains_key(&caster) {
            return Err(StateError::NotAccredited);
        }
        let mut record = match self.content_applications.get(&content_cid) {
            Some(pending) => pending.clone(),
            None => {
                return Err(StateError::UnknownContent);
            },
        };
        match record.ballot.cast(caster, direction) {
            Err(error) => {
                return Err(error);
            },
            Ok(()) => {},
        }
        let outcome = if !record.ballot.resolves(
            direction,
            self.configured(direction),
            self.reviewer_number,
        ) {
            Outcome::Pending
        } else {
            match direction {
                Direction::Approve => Outcome::Approved(record.clone()),
                Direction::Reject => Outcome::Rejected,
            }
        };
        self.content_applications.insert(content_cid, record);
        Ok(outcome)
    }

    /// Casts an approving vote of `caster` on the content submission
    /// `content_cid`, as [`Review::vote_on_content`] does, and hands back the
    /// record if the submission is thereby approved.
    pub fn approve_content(&mut self, caster: Owner, content_cid: String) -> (result: Result<
        Option<Content>,
        StateError,
    >)
        ensures
            match old(self)@.vote_on_content(caster, content_cid@, Direction::Approve) {
                Ok((next, outcome)) => final(self)@ == next && match outcome {
                    Outcome::Approved(record) => result matches Ok(Some(approved)) && approved@
                        == record,
                    _ => result matches Ok(None),
                },
                Err(error) => result matches Err(raised) && raised == error && final(self)@
                    == old(self)@,
            },
            sound(old(self)@) ==> sound(final(self)@),
    {
        match self.vote_on_content(caster, content_cid, Direction::Approve) {
            Ok(Outcome::Approved(record)) => Ok(Some(record)),
            Ok(_) => Ok(None),
            Err(error) => Err(error),
        }
    }

    /// Casts a rejecting vote of `caster` on the content submission
    /// `content_cid`, as [`Review::vote_on_content`] does, and tells whether
    /// the submission is thereby rejected.
    pub fn reject_content(&mut self, caster: Owner, content_cid: String) -> (result: Result<
        bool,
        StateError,
    >)
        ensures
            match old(self)@.vote_on_content(caster, content_cid@, Direction::Reject) {
                Ok((next, outcome)) => result == Ok::<bool, StateError>(outcome is Rejected)
                    && final(self)@ == next,
                Err(error) => result == Err::<bool, StateError>(error) && final(self)@ == old(self)@,
            },
            sound(old(self)@) ==> sound(final(self)@),
    {
        match self.vote_on_content(caster, content_cid, Direction::Reject) {
            Ok(Outcome::Rejected) => Ok(true),
            Ok(_) => Ok(false),
            Err(error) => Err(error),
        }
    }

    /// Whether `caster` may vote on the asset submission for
    /// `collection_id`: fails with `NotAccredited` if `caster` is not
    /// accredited, else with `UnknownAsset` if no such submission is
    /// pending, else with `AlreadyVoted` if `caster` has voted on it.
    /// Reads the state only.
    pub fn validate_asset_review(&self, caster: Owner, collection_id: u64) -> (result: Result<
        (),
        StateError,
    >)
        ensures
            result == self@.validate_asset_review(caster, collection_id),
    {
        if !self.reviewers.contains_key(&caster) {
            return Err(StateError::NotAccredited);
        }
        match self.asset_applications.get(&collection_id) {
            Some(pending) => {
                if pending.ballot.has_voted(&caster) {
                    Err(StateError::AlreadyVoted)
                } else {
                    Ok(())
                }
            },
            None => Err(StateError::UnknownAsset),
        }
    }

    /// Files `asset` under its collection, replacing what was pending
    /// there. Always succeeds.
    pub fn submit_asset(&mut self, asset: Asset) -> (result: Result<(), StateError>)
        ensures
            result == Ok::<(), StateError>(()),
            final(self)@ == old(self)@.submit_asset(asset@),
            sound(old(self)@) && asset@.ballot.consistent() ==> sound(final(self)@),
    {
        proof {
            if sound(self@) && asset@.ballot.consistent() {
                law_submit_asset_keeps_sound(self@, asset@);
            }
        }
        let collection_id = asset.collection_id;
        self.asset_applications.insert(collection_id, asset);
        Ok(())
    }

    /// Casts the vote of `caster` in `direction` on the asset submission
    /// for `collection_id`.
    ///
    /// Fails as [`Review::validate_asset_review`] does, or with
    /// `ArithmeticOverflow` where the tally cannot grow. Otherwise the vote
    /// is recorded and the outcome says whether the votes in `direction`
    /// then reach the quorum; an approval hands back the record. The
    /// submission stays filed either way.
    pub fn vote_on_asset(&mut self, caster: Owner, collection_id: u64, direction: Direction) -> (result:
        Result<Outcome<Asset>, StateError>)
        ensures
            match old(self)@.vote_on_asset(caster, collection_id, direction) {
                Ok((next, outcome)) => result matches Ok(reached) && reached@ == outcome && final(self)@ == next,
                Err(error) => result matches Err(raised) && raised == error && final(self)@
                    == old(self)@,
            },
            sound(old(self)@) ==> sound(final(self)@),
    {
        proof {
            if sound(self@) {
                law_vote_on_asset_keeps_sound(self@, caster, collection_id, direction);
            }
        }
        if !self.reviewers.contains_key(&caster) {
            return Err(StateError::NotAccredited);
        }
        let mut record = match self.asset_applications.get(&collection_id) {
            Some(pending) => pending.clone(),
            None => {
                return Err(StateError::UnknownAsset);
            },
        };
        match record.ballot.cast(caster, direction) {
            Err(error) => {
                return Err(error);
            },
            Ok(()) => {},
        }
        let outcome = if !record.ballot.resolves(
            direction,
            self.configured(direction),
            self.reviewer_number,
        ) {
            Outcome::Pending
        } else {
            match direction {
                Direction::Approve => Outcome::Approved(record.clone()),
                Direction::Reject => Outcome::Rejected,
            }
        };
        self.asset_applications.insert(collection_id, record);
        Ok(outcome)
    }

    /// Casts an approving vote of `caster` on the asset submission for
    /// `collection_id`, as [`Review::vote_on_asset`] does, and hands back
    /// the record if the submission is thereby approved.
    pub fn approve_asset(&mut self, caster: Owner, collection_id: u64) -> (result: Result<
        Option<Asset>,
        StateError,
    >)
        ensures
            match old(self)@.vote_on_asset(caster, collection_id, Direction::Approve) {
                Ok((next, outcome)) => final(self)@ == next && match outcome {
                    Outcome::Approved(record) => result matches Ok(Some(approved)) && approved@
                        == record,
                    _ => result matches Ok(None),
                },
                Err(error) => result matches Err(raised) && raised == error && final(self)@
                    == old(self)@,
            },
            sound(old(self)@) ==> sound(final(self)@),
    {
        match self.vote_on_asset(caster, collection_id, Direction::Approve) {
            Ok(Outcome::Approved(record)) => Ok(Some(record)),
            Ok(_) => Ok(None),
            Err(error) => Err(error),
        }
    }

    /// Casts a rejecting vote of `caster` on the asset submission for
    /// `collection_id`, as [`Review::vote_on_asset`] does, and tells whether
    /// the submission is thereby rejected.
    pub fn reject_asset(&mut self, caster: Owner, collection_id: u64) -> (result: Result<
        bool,
        StateError,
    >)
        ensures
            match old(self)@.vote_on_asset(caster, collection_id, Direction::Reject) {
                Ok((next, outcome)) => result == Ok::<bool, StateError>(outcome is Rejected)
                    && final(self)@ == next,
                Err(error) => result == Err::<bool, StateError>(error) && final(self)@ == old(self)@,
            },
            sound(old(self)@) ==> sound(final(self)@),
    {
        match self.vote_on_asset(caster, collection_id, Direction::Reject) {
            Ok(Outcome::Rejected) => Ok(true),
            Ok(_) => Ok(false),
            Err(error) => Err(error),
        }
    }
}

} // verus!
