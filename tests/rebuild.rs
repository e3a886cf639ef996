use crowdfund::contract::Contract;
use crowdfund::crowdfund::{Crowdfund, CrowdfundStatus, ItemMetadata, MintState};
use crowdfund::ledger::{Ledger, LedgerEntry};

fn entry(account: &str, funded: u128, fees_paid: u128) -> LedgerEntry {
    LedgerEntry { account: String::from(account), funded, fees_paid }
}

fn rebuilt(entries: Vec<LedgerEntry>, goal: u128, fee_bp: u64, progress: u128) -> Option<Crowdfund> {
    Crowdfund::from_parts(
        String::from("nft.near"),
        0,
        ItemMetadata::default(),
        goal,
        fee_bp,
        Ledger::from_entries(entries),
        progress,
        CrowdfundStatus::InProgress,
        MintState::NotRequested,
    )
}

#[test]
fn ledger_checks() {
    let ledger = Ledger::from_entries(vec![entry("a", 5, 1), entry("b", 7, 2)]);
    assert!(ledger.has_unique_accounts());
    assert_eq!(ledger.total(), Some(12));
    assert_eq!(ledger.holders(), vec![String::from("a"), String::from("b")]);
    assert_eq!(ledger.entries(), vec![entry("a", 5, 1), entry("b", 7, 2)]);

    let repeated = Ledger::from_entries(vec![entry("a", 5, 1), entry("b", 7, 2), entry("a", 1, 0)]);
    assert!(!repeated.has_unique_accounts());

    let huge = Ledger::from_entries(vec![entry("a", u128::MAX, 0), entry("b", 1, 0)]);
    assert_eq!(huge.total(), None);
}

#[test]
fn ledger_insert_replaces_or_appends() {
    let mut ledger = Ledger::new();
    ledger.insert(String::from("a"), 3, 1);
    ledger.insert(String::from("b"), 4, 1);
    ledger.insert(String::from("a"), 9, 2);
    assert_eq!(ledger.len(), 2);
    assert_eq!(ledger.totals_of(&String::from("a")), (9, 2));
    assert_eq!(ledger.shares(), vec![9, 4]);
    assert_eq!(ledger.position(&String::from("b")), Some(1));
    assert_eq!(ledger.position(&String::from("c")), None);
}

#[test]
fn item_rebuild_checks_its_invariant() {
    assert!(rebuilt(vec![entry("a", 5, 1), entry("b", 7, 2)], 100, 400, 12).is_some());
    assert!(rebuilt(vec![entry("a", 5, 1), entry("b", 7, 2)], 100, 400, 13).is_none());
    assert!(rebuilt(vec![entry("a", 5, 1), entry("a", 7, 2)], 100, 400, 12).is_none());
    assert!(rebuilt(vec![], 0, 400, 0).is_none());
    assert!(rebuilt(vec![], 10, 10001, 0).is_none());
    assert!(rebuilt(vec![entry("a", 20, 0)], 10, 400, 20).is_none());
    let item = rebuilt(vec![entry("a", 10, 0)], 10, 400, 10).unwrap();
    assert!(item.is_consistent());
    assert_eq!(item.get_progress(), 10);
}

#[test]
fn registry_rebuild_checks_numbering() {
    let first = rebuilt(vec![], 10, 400, 0).unwrap();
    let registry = Contract::from_parts(
        String::from("self.near"),
        String::from("nft.near"),
        String::from("usdc.near"),
        400,
        vec![first],
        vec![String::from("op.near")],
    )
    .unwrap();
    assert_eq!(registry.get_crowdfund_count(), 1);
    assert!(registry.caller_is_operator(&String::from("op.near")));
    assert_eq!(registry.get_crowdfund_goal(0), Ok(10));

    let misnumbered = Crowdfund::from_parts(
        String::from("nft.near"),
        4,
        ItemMetadata::default(),
        10,
        400,
        Ledger::new(),
        0,
        CrowdfundStatus::InProgress,
        MintState::NotRequested,
    )
    .unwrap();
    assert!(Contract::from_parts(
        String::from("self.near"),
        String::from("nft.near"),
        String::from("usdc.near"),
        400,
        vec![misnumbered],
        vec![],
    )
    .is_none());

    let other_collection = rebuilt(vec![], 10, 400, 0).unwrap();
    assert!(Contract::from_parts(
        String::from("self.near"),
        String::from("other-nft.near"),
        String::from("usdc.near"),
        400,
        vec![other_collection],
        vec![],
    )
    .is_none());
}
