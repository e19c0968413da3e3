use review::{
    effective_threshold, Asset, Ballot, Content, Direction, MarketAbi, Owner, Reviewer,
    StateError, Table,
};

#[test]
fn effective_threshold_is_the_smaller_bound() {
    assert_eq!(effective_threshold(5, 3), 3);
    assert_eq!(effective_threshold(2, 3), 2);
    assert_eq!(effective_threshold(2, 1), 1);
    assert_eq!(effective_threshold(4, 4), 4);
    assert_eq!(effective_threshold(0, 9), 0);
    assert_eq!(effective_threshold(9, 0), 0);
    assert_eq!(effective_threshold(u16::MAX, u16::MAX), u16::MAX);
}

#[test]
fn ballot_counts_each_direction() {
    let mut ballot = Ballot::new();
    assert_eq!(ballot.tally(Direction::Approve), 0);
    assert_eq!(ballot.tally(Direction::Reject), 0);
    assert_eq!(ballot.cast(Owner(1, 0, 0, 0), Direction::Approve), Ok(()));
    assert_eq!(ballot.cast(Owner(2, 0, 0, 0), Direction::Reject), Ok(()));
    assert_eq!(ballot.cast(Owner(3, 0, 0, 0), Direction::Reject), Ok(()));
    assert_eq!(ballot.tally(Direction::Approve), 1);
    assert_eq!(ballot.tally(Direction::Reject), 2);
    assert_eq!(ballot.approved, 1);
    assert_eq!(ballot.rejected, 2);
    assert_eq!(ballot.voters.len(), 3);
    assert!(ballot.has_voted(&Owner(2, 0, 0, 0)));
    assert!(!ballot.has_voted(&Owner(4, 0, 0, 0)));
    assert_eq!(ballot.voters.get(&Owner(1, 0, 0, 0)), Some(&Direction::Approve));
    assert_eq!(ballot.voters.get(&Owner(3, 0, 0, 0)), Some(&Direction::Reject));
}

#[test]
fn ballot_refuses_a_second_vote() {
    let mut ballot = Ballot::new();
    assert_eq!(ballot.cast(Owner(1, 0, 0, 0), Direction::Approve), Ok(()));
    assert_eq!(ballot.cast(Owner(1, 0, 0, 0), Direction::Approve), Err(StateError::AlreadyVoted));
    assert_eq!(ballot.cast(Owner(1, 0, 0, 0), Direction::Reject), Err(StateError::AlreadyVoted));
    assert_eq!(ballot.approved, 1);
    assert_eq!(ballot.rejected, 0);
    assert_eq!(ballot.voters.len(), 1);
}

#[test]
fn ballot_refuses_to_overflow() {
    let mut ballot = Ballot { voters: Table::new(), approved: 3, rejected: u16::MAX };
    assert_eq!(
        ballot.cast(Owner(1, 0, 0, 0), Direction::Reject),
        Err(StateError::ArithmeticOverflow)
    );
    assert_eq!(ballot.rejected, u16::MAX);
    assert_eq!(ballot.voters.len(), 0);
    assert_eq!(ballot.cast(Owner(1, 0, 0, 0), Direction::Approve), Ok(()));
    assert_eq!(ballot.approved, 4);
}

#[test]
fn ballot_resolves_at_the_quorum() {
    let mut ballot = Ballot::new();
    assert!(!ballot.resolves(Direction::Approve, 5, 3));
    assert!(ballot.resolves(Direction::Approve, 0, 3));
    for n in 1..=3u64 {
        assert!(!ballot.resolves(Direction::Approve, 5, 3));
        assert_eq!(ballot.cast(Owner(n, 0, 0, 0), Direction::Approve), Ok(()));
    }
    assert!(ballot.resolves(Direction::Approve, 5, 3));
    assert!(!ballot.resolves(Direction::Approve, 5, 4));
    assert!(!ballot.resolves(Direction::Reject, 5, 3));
    assert!(ballot.resolves(Direction::Approve, 3, 9));
    assert!(!ballot.resolves(Direction::Approve, 4, 9));
}

#[test]
fn founding_ballot_is_approved_once() {
    let ballot = Ballot::founding();
    assert_eq!(ballot.approved, 1);
    assert_eq!(ballot.rejected, 0);
    assert_eq!(ballot.voters.len(), 0);
}

#[test]
fn ballot_clone_is_independent() {
    let mut ballot = Ballot::new();
    assert_eq!(ballot.cast(Owner(1, 0, 0, 0), Direction::Approve), Ok(()));
    let copy = ballot.clone();
    assert_eq!(ballot.cast(Owner(2, 0, 0, 0), Direction::Reject), Ok(()));
    assert_eq!(copy.approved, 1);
    assert_eq!(copy.rejected, 0);
    assert_eq!(copy.voters.len(), 1);
    assert!(copy.has_voted(&Owner(1, 0, 0, 0)));
    assert!(!copy.has_voted(&Owner(2, 0, 0, 0)));
}

#[test]
fn records_start_without_votes() {
    let candidate = Reviewer::candidate(Owner(1, 2, 3, 4), String::from("cv"));
    assert_eq!(candidate.reviewer, Owner(1, 2, 3, 4));
    assert_eq!(candidate.resume.as_deref(), Some("cv"));
    assert_eq!(candidate.ballot.approved, 0);
    assert_eq!(candidate.ballot.voters.len(), 0);
    let founder = Reviewer::founder(Owner(9, 9, 9, 9));
    assert_eq!(founder.reviewer, Owner(9, 9, 9, 9));
    assert!(founder.resume.is_none());
    assert_eq!(founder.ballot.approved, 1);
    let content = Content::new(String::from("cid"));
    assert_eq!(content.cid, "cid");
    assert_eq!(content.ballot.rejected, 0);
    let asset = Asset::new(17);
    assert_eq!(asset.collection_id, 17);
    assert_eq!(asset.ballot.voters.len(), 0);
    let copy = candidate.clone();
    assert_eq!(copy.reviewer, candidate.reviewer);
    assert_eq!(copy.resume, candidate.resume);
    assert_eq!(content.clone().cid, "cid");
    assert_eq!(asset.clone().collection_id, 17);
}

#[test]
fn owners_are_equal_word_by_word() {
    assert_eq!(Owner(1, 2, 3, 4), Owner(1, 2, 3, 4));
    assert_ne!(Owner(1, 2, 3, 4), Owner(1, 2, 3, 5));
    assert_ne!(Owner(1, 2, 3, 4), Owner(0, 2, 3, 4));
    assert_ne!(Owner(1, 2, 3, 4), Owner(4, 3, 2, 1));
    assert_eq!(Owner::from_words([5, 6, 7, 8]), Owner(5, 6, 7, 8));
    assert_eq!(Owner(5, 6, 7, 8).words(), [5, 6, 7, 8]);
    assert_eq!(Owner::from_words(Owner(u64::MAX, 0, 1, 2).words()), Owner(u64::MAX, 0, 1, 2));
}

#[test]
fn table_holds_one_value_per_key() {
    let mut table: Table<u64, u64> = Table::new();
    assert_eq!(table.len(), 0);
    assert!(!table.contains_key(&1));
    assert_eq!(table.get(&1), None);
    table.insert(1, 10);
    table.insert(2, 20);
    table.insert(3, 30);
    assert_eq!(table.len(), 3);
    table.insert(2, 21);
    assert_eq!(table.len(), 3);
    assert_eq!(table.get(&1), Some(&10));
    assert_eq!(table.get(&2), Some(&21));
    assert_eq!(table.get(&3), Some(&30));
    assert_eq!(table.remove(&1), Some(10));
    assert_eq!(table.remove(&1), None);
    assert_eq!(table.len(), 2);
    assert!(!table.contains_key(&1));
    assert_eq!(table.get(&2), Some(&21));
    assert_eq!(table.get(&3), Some(&30));
    let copy = table.duplicate();
    table.insert(4, 40);
    assert_eq!(copy.len(), 2);
    assert_eq!(copy.get(&3), Some(&30));
    assert_eq!(copy.get(&4), None);
}

#[test]
fn table_keys_by_text_and_by_owner() {
    let mut by_text: Table<String, u64> = Table::new();
    by_text.insert(String::from("a"), 1);
    by_text.insert(String::from("ab"), 2);
    by_text.insert(String::from("a"), 3);
    assert_eq!(by_text.len(), 2);
    assert_eq!(by_text.get(&String::from("a")), Some(&3));
    assert_eq!(by_text.get(&String::from("ab")), Some(&2));
    assert_eq!(by_text.get(&String::from("b")), None);
    let mut by_owner: Table<Owner, u64> = Table::new();
    by_owner.insert(Owner(1, 0, 0, 0), 1);
    by_owner.insert(Owner(0, 1, 0, 0), 2);
    by_owner.insert(Owner(1, 0, 0, 0), 3);
    assert_eq!(by_owner.len(), 2);
    assert_eq!(by_owner.get(&Owner(1, 0, 0, 0)), Some(&3));
    assert_eq!(by_owner.get(&Owner(0, 1, 0, 0)), Some(&2));
    assert_eq!(by_owner.remove(&Owner(0, 0, 1, 0)), None);
}

#[test]
fn errors_describe_themselves() {
    assert_eq!(StateError::StorageFailure.message(), "View error");
    assert_eq!(StateError::ArithmeticOverflow.message(), "Arithmetic error");
    assert_eq!(StateError::NotAccredited.message(), "Not accredited");
    assert_eq!(StateError::AlreadyAccredited.message(), "Already accredited");
    assert_eq!(StateError::DuplicateApplication.message(), "Application already pending");
    assert_eq!(StateError::UnknownReviewer.message(), "Invalid account");
    assert_eq!(StateError::UnknownCandidate.message(), "Invalid candidate");
    assert_eq!(StateError::UnknownContent.message(), "Invalid content");
    assert_eq!(StateError::UnknownAsset.message(), "Invalid asset");
    assert_eq!(StateError::AlreadyVoted.message(), "Already reviewed");
}

#[test]
fn market_abi_is_a_marker() {
    assert_eq!(MarketAbi, MarketAbi);
    assert_eq!(std::mem::size_of::<MarketAbi>(), 0);
}

#[test]
fn table_lists_each_key_once() {
    let mut table: Table<u64, u64> = Table::new();
    assert!(table.entries().is_empty());
    table.insert(3, 30);
    table.insert(1, 10);
    table.insert(3, 31);
    table.insert(2, 20);
    assert_eq!(table.remove(&1), Some(10));
    let mut entries = table.entries();
    entries.sort();
    assert_eq!(entries, vec![(2, 20), (3, 31)]);
}
