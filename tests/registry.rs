use crowdfund::contract::{Contract, ContractError, DEFAULT_FEE_BASIS_POINTS};
use crowdfund::crowdfund::{CrowdfundStatus, FundError, FundReceipt, ItemMetadata, MintState, DEFAULT_TOKEN_SUPPLY};

const SELF_ACCOUNT: &str = "crowdfund.test.near";
const NFT_ACCOUNT: &str = "nft.test.near";
const COIN_ACCOUNT: &str = "usdc.test.near";
const OPERATOR: &str = "operator.test.near";

fn s(text: &str) -> String {
    String::from(text)
}

fn metadata(title: &str) -> ItemMetadata {
    ItemMetadata { title: Some(s(title)), copies: Some(1), ..ItemMetadata::default() }
}

fn registry_with_item(goal: u128) -> Contract {
    let mut contract = Contract::new(s(SELF_ACCOUNT), s(NFT_ACCOUNT), s(COIN_ACCOUNT));
    contract.add_operator(&s(SELF_ACCOUNT), s(OPERATOR)).unwrap();
    assert_eq!(contract.new_item(&s(OPERATOR), metadata("rolex"), goal), Ok(0));
    contract
}

fn pay(contract: &mut Contract, sender: &str, amount: u128, msg: &str) -> Result<FundReceipt, ContractError> {
    contract.ft_on_transfer(&s(COIN_ACCOUNT), s(sender), amount, msg)
}

fn status_of(contract: &Contract, index: u64) -> CrowdfundStatus {
    contract.get_crowdfund(index).unwrap().get_status()
}

#[test]
fn lib_test_new() {
    let contract = Contract::new(s("test.near"), s("test.near"), s("test.near"));
    assert!(contract.get_current_items().is_empty());
}

#[test]
fn lib_test_new_item() {
    let mut contract = Contract::new(s("test.near"), s("nft.test.near"), s("usdc.test.near"));
    contract.add_operator(&s("test.near"), s("test.near")).unwrap();
    assert_eq!(contract.new_item(&s("test.near"), metadata("rolex"), 1000), Ok(0));
    assert_eq!(contract.get_current_items(), vec![metadata("rolex")]);
    assert_eq!(contract.get_current_items()[0].title, Some(s("rolex")));
}

#[test]
fn scenario_two_contributors_close_the_goal() {
    let mut contract = registry_with_item(1000);
    assert_eq!(contract.get_crowdfund_fee_percentage(0), Ok(400));

    let first = pay(&mut contract, "alice.near", 400, "0").unwrap();
    assert_eq!(first.leftover, 0);
    assert!(first.mint.is_none());
    assert_eq!(contract.get_crowdfund_progress(0), Ok(384));
    assert_eq!(status_of(&contract, 0), CrowdfundStatus::InProgress);
    assert_eq!(contract.get_crowdfund(0).unwrap().get_ledger().totals_of(&s("alice.near")), (384, 16));

    let second = pay(&mut contract, "bob.near", 700, "0").unwrap();
    // fee 28, net 672; 56 of the net is beyond the goal, and 28 * 56 / 672 = 2 of the fee
    assert_eq!(second.leftover, 58);
    assert_eq!(contract.get_crowdfund_progress(0), Ok(1000));
    assert_eq!(status_of(&contract, 0), CrowdfundStatus::Transporting);
    let item = contract.get_crowdfund(0).unwrap();
    assert_eq!(item.get_ledger().totals_of(&s("bob.near")), (616, 26));
    assert_eq!(item.get_mint_state(), MintState::Pending);

    let request = second.mint.unwrap();
    assert_eq!(request.holders, vec![s("alice.near"), s("bob.near")]);
    assert_eq!(request.shares, vec![384, 616]);
    assert_eq!(request.ft_supply, DEFAULT_TOKEN_SUPPLY);
    assert_eq!(request.ft_supply, 1_000_000);
    assert_eq!(request.item_index, 0);
    assert_eq!(request.nft_account_id, s(NFT_ACCOUNT));
    assert_eq!(request.metadata, metadata("rolex"));
}

#[test]
fn scenario_funding_a_closed_goal_fails() {
    let mut contract = registry_with_item(1000);
    pay(&mut contract, "alice.near", 2000, "0").unwrap();
    assert_eq!(contract.get_crowdfund_progress(0), Ok(1000));
    let before = contract.get_crowdfund(0).unwrap().get_ledger().totals_of(&s("alice.near"));

    let refused = pay(&mut contract, "bob.near", 10, "0");
    assert_eq!(refused.unwrap_err(), ContractError::Fund(FundError::GoalAlreadyReached));
    assert_eq!(contract.get_crowdfund_progress(0), Ok(1000));
    assert_eq!(status_of(&contract, 0), CrowdfundStatus::Transporting);
    let item = contract.get_crowdfund(0).unwrap();
    assert_eq!(item.get_ledger().totals_of(&s("alice.near")), before);
    assert_eq!(item.get_ledger().totals_of(&s("bob.near")), (0, 0));
    assert_eq!(item.get_ledger().len(), 1);
}

#[test]
fn scenario_non_operator_cannot_create() {
    let mut contract = Contract::new(s(SELF_ACCOUNT), s(NFT_ACCOUNT), s(COIN_ACCOUNT));
    assert_eq!(contract.new_item(&s("mallory.near"), metadata("rolex"), 1000), Err(ContractError::NotOperator));
    assert!(contract.get_current_items().is_empty());
    assert_eq!(contract.get_crowdfund_goal(0), Err(ContractError::UnknownItem));
}

#[test]
fn scenario_failed_confirmation_keeps_transporting() {
    let mut contract = registry_with_item(1000);
    pay(&mut contract, "alice.near", 5000, "0").unwrap();
    assert_eq!(status_of(&contract, 0), CrowdfundStatus::Transporting);
    contract.nft_mint_callback(0, false);
    assert_eq!(status_of(&contract, 0), CrowdfundStatus::Transporting);
    assert_eq!(contract.get_crowdfund(0).unwrap().get_mint_state(), MintState::Failed);
    assert_eq!(contract.get_crowdfund_progress(0), Ok(1000));
}

#[test]
fn confirmation_tokenizes_and_tokenized_is_terminal() {
    let mut contract = registry_with_item(1000);
    pay(&mut contract, "alice.near", 5000, "0").unwrap();
    contract.nft_mint_callback(0, true);
    assert_eq!(status_of(&contract, 0), CrowdfundStatus::Tokenized);
    assert_eq!(contract.get_crowdfund(0).unwrap().get_mint_state(), MintState::Confirmed);
    contract.nft_mint_callback(0, false);
    contract.nft_mint_callback(0, true);
    assert_eq!(status_of(&contract, 0), CrowdfundStatus::Tokenized);
    assert_eq!(
        pay(&mut contract, "bob.near", 1, "0").unwrap_err(),
        ContractError::Fund(FundError::GoalAlreadyReached)
    );
    assert_eq!(status_of(&contract, 0), CrowdfundStatus::Tokenized);
}

#[test]
fn callback_before_dispatch_or_for_unknown_item_changes_nothing() {
    let mut contract = registry_with_item(1000);
    contract.nft_mint_callback(0, true);
    assert_eq!(status_of(&contract, 0), CrowdfundStatus::InProgress);
    assert_eq!(contract.get_crowdfund(0).unwrap().get_mint_state(), MintState::NotRequested);
    contract.nft_mint_callback(9, true);
    assert_eq!(contract.get_current_items().len(), 1);
}

#[test]
fn conservation_over_many_contributions() {
    let mut contract = registry_with_item(10_000);
    let senders = ["a.near", "b.near", "a.near", "c.near", "b.near", "a.near", "d.near"];
    let amounts = [1234u128, 999, 1, 3000, 2500, 777, 9999];
    let mut returned: u128 = 0;
    for (sender, amount) in senders.iter().zip(amounts.iter()) {
        if let Ok(receipt) = pay(&mut contract, sender, *amount, "0") {
            returned += receipt.leftover;
        }
        let item = contract.get_crowdfund(0).unwrap();
        let shares = item.get_ledger().shares();
        let total: u128 = shares.iter().sum();
        assert_eq!(total, item.get_progress());
        assert!(item.get_progress() <= item.get_goal());
    }
    assert_eq!(contract.get_crowdfund_progress(0), Ok(10_000));
    assert!(returned > 0);
    assert_eq!(status_of(&contract, 0), CrowdfundStatus::Transporting);
}

#[test]
fn reads_are_repeatable() {
    let mut contract = registry_with_item(1000);
    pay(&mut contract, "alice.near", 300, "0").unwrap();
    assert_eq!(contract.get_crowdfund_progress(0), contract.get_crowdfund_progress(0));
    assert_eq!(contract.get_crowdfund_goal(0), contract.get_crowdfund_goal(0));
    assert_eq!(contract.get_crowdfund_progress(0), Ok(288));
    assert_eq!(contract.get_crowdfund_goal(0), Ok(1000));
}

#[test]
fn zero_goal_is_invalid() {
    let mut contract = registry_with_item(1000);
    assert_eq!(contract.new_item(&s(OPERATOR), metadata("watch"), 0), Err(ContractError::InvalidGoal));
    assert_eq!(contract.get_current_items().len(), 1);
    assert_eq!(contract.new_item(&s(OPERATOR), metadata("watch"), 5), Ok(1));
    assert_eq!(contract.get_crowdfund_goal(1), Ok(5));
    assert_eq!(contract.get_crowdfund_fee_percentage(1), Ok(DEFAULT_FEE_BASIS_POINTS));
}

#[test]
fn only_the_registry_adds_operators() {
    let mut contract = Contract::new(s(SELF_ACCOUNT), s(NFT_ACCOUNT), s(COIN_ACCOUNT));
    assert_eq!(contract.add_operator(&s(OPERATOR), s(OPERATOR)), Err(ContractError::NotSelf));
    assert!(!contract.caller_is_operator(&s(OPERATOR)));
    assert_eq!(contract.add_operator(&s(SELF_ACCOUNT), s(OPERATOR)), Ok(()));
    assert!(contract.caller_is_operator(&s(OPERATOR)));
}

#[test]
fn payment_errors() {
    let mut contract = registry_with_item(1000);
    assert_eq!(
        contract.ft_on_transfer(&s("other-coin.near"), s("alice.near"), 100, "0").unwrap_err(),
        ContractError::CoinNotAccepted
    );
    assert_eq!(pay(&mut contract, "alice.near", 100, "zero").unwrap_err(), ContractError::MalformedMessage);
    assert_eq!(pay(&mut contract, "alice.near", 100, "").unwrap_err(), ContractError::MalformedMessage);
    assert_eq!(pay(&mut contract, "alice.near", 100, "7").unwrap_err(), ContractError::UnknownItem);
    assert_eq!(contract.get_crowdfund_progress(0), Ok(0));
    assert_eq!(pay(&mut contract, "alice.near", 100, "+0").unwrap().leftover, 0);
    assert_eq!(contract.get_crowdfund_progress(0), Ok(96));
}
