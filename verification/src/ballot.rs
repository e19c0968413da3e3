//! Ballots: the votes cast on one application, and the quorum rule.
//!
//! Every kind of application carries a [`Ballot`]. Casting a vote and
//! deciding whether the application resolves are defined here once, for all
//! kinds.

use vstd::prelude::*;

use crate::error::StateError;
use crate::owner::Owner;
use crate::table::Table;

verus! {

/// The direction of a vote.
#[derive(Clone, Copy, Debug, PartialEq, Eq, Structural)]
pub enum Direction {
    Approve,
    Reject,
}

impl View for Direction {
    type V = Direction;

    open spec fn view(&self) -> Direction {
        *self
    }
}

/// The quorum in force: the configured threshold, bounded by the number of
/// accredited members.
pub open spec fn spec_effective_threshold(configured: u16, reviewer_number: u16) -> u16 {
    if configured <= reviewer_number {
        configured
    } else {
        reviewer_number
    }
}

/// The quorum in force: the configured threshold, or the number of
/// accredited members where that is smaller, so that a small electorate
/// can still decide.
#[verifier::when_used_as_spec(spec_effective_threshold)]
pub fn effective_threshold(configured: u16, reviewer_number: u16) -> (quorum: u16)
    ensures
        quorum == spec_effective_threshold(configured, reviewer_number),
{
    if configured <= reviewer_number {
        configured
    } else {
        reviewer_number
    }
}

/// The mathematical content of a [`Ballot`].
pub struct BallotView {
    /// Who has voted, and in which direction.
    pub votes: Map<Owner, Direction>,
    /// The number of approving votes.
    pub approved: u16,
    /// The number of rejecting votes.
    pub rejected: u16,
}

impl BallotView {
    /// The ballot of a fresh application: no votes.
    pub open spec fn empty() -> BallotView {
        BallotView { votes: Map::empty(), approved: 0, rejected: 0 }
    }

    /// The ballot of the founding member: approved once, by no voter.
    pub open spec fn founding() -> BallotView {
        BallotView { votes: Map::empty(), approved: 1, rejected: 0 }
    }

    /// Those who have voted.
    pub open spec fn voters(self) -> Set<Owner> {
        self.votes.dom()
    }

    /// Whether `caster` has voted.
    pub open spec fn has_voted(self, caster: Owner) -> bool {
        self.votes.contains_key(caster)
    }

    /// The number of votes in `direction`.
    pub open spec fn tally(self, direction: Direction) -> u16 {
        match direction {
            Direction::Approve => self.approved,
            Direction::Reject => self.rejected,
        }
    }

    /// The tallies account for exactly the voters: no vote is counted twice
    /// and none is lost.
    pub open spec fn consistent(self) -> bool {
        self.voters().finite() && self.voters().len() == self.approved + self.rejected
    }

    /// The ballot after `caster` has voted in `direction`, or why the vote
    /// is refused: `AlreadyVoted` for a second vote, `ArithmeticOverflow`
    /// where the tally cannot grow.
    pub open spec fn cast(self, caster: Owner, direction: Direction) -> Result<
        BallotView,
        StateError,
    > {
        if self.has_voted(caster) {
            Err(StateError::AlreadyVoted)
        } else if self.tally(direction) == u16::MAX {
            Err(StateError::ArithmeticOverflow)
        } else {
            Ok(
                match direction {
                    Direction::Approve => BallotView {
                        votes: self.votes.insert(caster, direction),
                        approved: (self.approved + 1) as u16,
                        rejected: self.rejected,
                    },
                    Direction::Reject => BallotView {
                        votes: self.votes.insert(caster, direction),
                        approved: self.approved,
                        rejected: (self.rejected + 1) as u16,
                    },
                },
            )
        }
    }

    /// Whether the votes in `direction` reach the quorum in force.
    pub open spec fn resolves(self, direction: Direction, configured: u16, reviewer_number: u16)
        -> bool {
        self.tally(direction) >= spec_effective_threshold(configured, reviewer_number)
    }
}

/// The votes cast on one application.
pub struct Ballot {
    /// Who has voted, and in which direction.
    pub voters: Table<Owner, Direction>,
    /// The number of approving votes.
    pub approved: u16,
    /// The number of rejecting votes.
    pub rejected: u16,
}

impl View for Ballot {
    type V = BallotView;

    open spec fn view(&self) -> BallotView {
        BallotView { votes: self.voters@, approved: self.approved, rejected: self.rejected }
    }
}

impl Clone for Ballot {
    fn clone(&self) -> (copy: Self)
        ensures
            copy@ == self@,
    {
        Ballot { voters: self.voters.duplicate(), approved: self.approved, rejected: self.rejected }
    }
}

impl Ballot {
    /// The ballot of a fresh application: no votes.
    pub fn new() -> (ballot: Self)
        ensures
            ballot@ == BallotView::empty(),
    {
        Ballot { voters: Table::new(), approved: 0, rejected: 0 }
    }

    /// The ballot of the founding member: approved once, by no voter.
    pub fn founding() -> (ballot: Self)
        ensures
            ballot@ == BallotView::founding(),
    {
        Ballot { voters: Table::new(), approved: 1, rejected: 0 }
    }

    /// Whether `caster` has voted.
    pub fn has_voted(&self, caster: &Owner) -> (voted: bool)
        ensures
            voted == self@.has_voted(*caster),
    {
        self.voters.contains_key(caster)
    }

    /// The number of votes in `direction`.
    pub fn tally(&self, direction: Direction) -> (count: u16)
        ensures
            count == self@.tally(direction),
    {
        match direction {
            Direction::Approve => self.approved,
            Direction::Reject => self.rejected,
        }
    }

    /// Records the vote of `caster` in `direction`. A second vote by the
    /// same caster fails with `AlreadyVoted`, a tally at its limit with
    /// `ArithmeticOverflow`; a failed vote changes nothing.
    pub fn cast(&mut self, caster: Owner, direction: Direction) -> (result: Result<(), StateError>)
        ensures
            match old(self)@.cast(caster, direction) {
                Ok(after) => result == Ok::<(), StateError>(()) && final(self)@ == after,
                Err(error) => result == Err::<(), StateError>(error) && final(self)@ == old(self)@,
            },
    {
        if self.voters.contains_key(&caster) {
            return Err(StateError::AlreadyVoted);
        }
        match direction {
            Direction::Approve => {
                if self.approved == u16::MAX {
                    return Err(StateError::ArithmeticOverflow);
                }
                self.approved = self.approved + 1;
            },
            Direction::Reject => {
                if self.rejected == u16::MAX {
                    return Err(StateError::ArithmeticOverflow);
                }
                self.rejected = self.rejected + 1;
            },
        }
        self.voters.insert(caster, direction);
        Ok(())
    }

    /// Whether the votes in `direction` reach the quorum in force: the
    /// configured threshold, bounded by the number of accredited members.
    pub fn resolves(&self, direction: Direction, configured: u16, reviewer_number: u16) -> (resolved:
        bool)
        ensures
            resolved == self@.resolves(direction, configured, reviewer_number),
    {
        self.tally(direction) >= effective_threshold(configured, reviewer_number)
    }
}

/// Casting a vote keeps a consistent ballot consistent, and adds exactly
/// the caster to the voters.
pub proof fn lemma_cast_consistent(ballot: BallotView, caster: Owner, direction: Direction)
    requires
        ballot.consistent(),
        ballot.cast(caster, direction) is Ok,
    ensures
        ballot.cast(caster, direction)->Ok_0.consistent(),
        ballot.cast(caster, direction)->Ok_0.voters() == ballot.voters().insert(caster),
        ballot.cast(caster, direction)->Ok_0.voters().len() == ballot.voters().len() + 1,
        ballot.cast(caster, direction)->Ok_0.tally(direction) == ballot.tally(direction) + 1,
{
    let after = ballot.cast(caster, direction)->Ok_0;
    assert(after.voters() =~= ballot.voters().insert(caster));
}

} // verus!
