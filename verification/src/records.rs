//! The records that the engine keeps: members, content submissions and
//! asset submissions, each with its ballot, and the genesis configuration.
//!
//! A record holds what the engine decides on: the key under which it is
//! filed and the votes cast on it. What else a submission carries is the
//! business of whoever stores it.

use vstd::prelude::*;

use crate::ballot::{Ballot, BallotView};
use crate::owner::Owner;

verus! {

/// The six thresholds that the engine is configured with at genesis.
#[derive(Clone, Copy, Debug, PartialEq, Eq, Structural)]
pub struct InitialState {
    pub content_approved_threshold: u16,
    pub content_rejected_threshold: u16,
    pub asset_approved_threshold: u16,
    pub asset_rejected_threshold: u16,
    pub reviewer_approved_threshold: u16,
    pub reviewer_rejected_threshold: u16,
}

/// The mathematical content of a member's record.
pub struct ReviewerView {
    /// Whom the record is about.
    pub reviewer: Owner,
    /// The application text, if any.
    pub resume: Option<Seq<char>>,
    /// The votes cast on the candidacy.
    pub ballot: BallotView,
}

impl ReviewerView {
    /// The record of a fresh candidate: no votes yet.
    pub open spec fn candidate(reviewer: Owner, resume: Seq<char>) -> ReviewerView {
        ReviewerView { reviewer, resume: Some(resume), ballot: BallotView::empty() }
    }

    /// The record of the founding member: approved once, by no voter, and
    /// without a resume.
    pub open spec fn founder(creator: Owner) -> ReviewerView {
        ReviewerView { reviewer: creator, resume: None, ballot: BallotView::founding() }
    }

    /// The same record with another resume.
    pub open spec fn with_resume(self, resume: Seq<char>) -> ReviewerView {
        ReviewerView { resume: Some(resume), ..self }
    }

    /// The same record with another ballot.
    pub open spec fn with_ballot(self, ballot: BallotView) -> ReviewerView {
        ReviewerView { ballot, ..self }
    }
}

/// An accredited member, or a candidate for accreditation.
pub struct Reviewer {
    /// Whom the record is about.
    pub reviewer: Owner,
    /// The application text: present for candidates.
    pub resume: Option<String>,
    /// The votes cast on the candidacy.
    pub ballot: Ballot,
}

impl View for Reviewer {
    type V = ReviewerView;

    open spec fn view(&self) -> ReviewerView {
        ReviewerView {
            reviewer: self.reviewer,
            resume: match self.resume {
                Some(text) => Some(text@),
                None => None,
            },
            ballot: self.ballot@,
        }
    }
}

impl Clone for Reviewer {
    fn clone(&self) -> (copy: Self)
        ensures
            copy@ == self@,
    {
        let resume = match &self.resume {
            Some(text) => Some(text.clone()),
            None => None,
        };
        Reviewer { reviewer: self.reviewer, resume, ballot: self.ballot.clone() }
    }
}

impl Reviewer {
    /// The record of a fresh candidate: no votes yet.
    pub fn candidate(reviewer: Owner, resume: String) -> (record: Self)
        ensures
            record@ == ReviewerView::candidate(reviewer, resume@),
    {
        Reviewer { reviewer, resume: Some(resume), ballot: Ballot::new() }
    }

    /// The record of the founding member: approved once, by no voter, and
    /// without a resume.
    pub fn founder(creator: Owner) -> (record: Self)
        ensures
            record@ == ReviewerView::founder(creator),
    {
        Reviewer { reviewer: creator, resume: None, ballot: Ballot::founding() }
    }
}

/// The mathematical content of a [`Content`].
pub struct ContentView {
    /// The content identifier.
    pub cid: Seq<char>,
    /// The votes cast on the submission.
    pub ballot: BallotView,
}

impl ContentView {
    /// A fresh submission: no votes yet.
    pub open spec fn submission(cid: Seq<char>) -> ContentView {
        ContentView { cid, ballot: BallotView::empty() }
    }

    /// The same record with another ballot.
    pub open spec fn with_ballot(self, ballot: BallotView) -> ContentView {
        ContentView { ballot, ..self }
    }
}

/// A content submission under review.
pub struct Content {
    /// The content identifier, under which the submission is filed.
    pub cid: String,
    /// The votes cast on the submission.
    pub ballot: Ballot,
}

impl View for Content {
    type V = ContentView;

    open spec fn view(&self) -> ContentView {
        ContentView { cid: self.cid@, ballot: self.ballot@ }
    }
}

impl Clone for Content {
    fn clone(&self) -> (copy: Self)
        ensures
            copy@ == self@,
    {
        Content { cid: self.cid.clone(), ballot: self.ballot.clone() }
    }
}

impl Content {
    /// A fresh submission: no votes yet.
    pub fn new(cid: String) -> (record: Self)
        ensures
            record@ == ContentView::submission(cid@),
    {
        Content { cid, ballot: Ballot::new() }
    }
}

/// The mathematical content of an [`Asset`].
pub struct AssetView {
    /// The collection that the asset belongs to.
    pub collection_id: u64,
    /// The votes cast on the submission.
    pub ballot: BallotView,
}

impl AssetView {
    /// A fresh submission: no votes yet.
    pub open spec fn submission(collection_id: u64) -> AssetView {
        AssetView { collection_id, ballot: BallotView::empty() }
    }

    /// The same record with another ballot.
    pub open spec fn with_ballot(self, ballot: BallotView) -> AssetView {
        AssetView { ballot, ..self }
    }
}

/// An asset submission under review.
pub struct Asset {
    /// The collection that the asset belongs to, under which the submission
    /// is filed.
    pub collection_id: u64,
    /// The votes cast on the submission.
    pub ballot: Ballot,
}

impl View for Asset {
    type V = AssetView;

    open spec fn view(&self) -> AssetView {
        AssetView { collection_id: self.collection_id, ballot: self.ballot@ }
    }
}

impl Clone for Asset {
    fn clone(&self) -> (copy: Self)
        ensures
            copy@ == self@,
    {
        Asset { collection_id: self.collection_id, ballot: self.ballot.clone() }
    }
}

impl Asset {
    /// A fresh submission: no votes yet.
    pub fn new(collection_id: u64) -> (record: Self)
        ensures
            record@ == AssetView::submission(collection_id),
    {
        Asset { collection_id, ballot: Ballot::new() }
    }
}

} // verus!
