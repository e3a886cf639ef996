use crowdfund::crowdfund::{Crowdfund, CrowdfundStatus, FundError, ItemMetadata};
use crowdfund::fee::{calculate_leftovers, split_netto_and_fee};
use crowdfund::message::parse_item_index;

fn item(goal: u128, fee_bp: u64) -> Crowdfund {
    let metadata = ItemMetadata { title: Some(String::from("watch")), ..ItemMetadata::default() };
    Crowdfund::new(String::from("nft.near"), 3, metadata, goal, fee_bp)
}

#[test]
fn split_at_four_percent() {
    assert_eq!(split_netto_and_fee(400, 400), (384, 16));
    assert_eq!(split_netto_and_fee(700, 400), (672, 28));
    assert_eq!(split_netto_and_fee(24, 400), (24, 0));
    assert_eq!(split_netto_and_fee(25, 400), (24, 1));
}

#[test]
fn split_edges() {
    assert_eq!(split_netto_and_fee(0, 400), (0, 0));
    assert_eq!(split_netto_and_fee(1000, 0), (1000, 0));
    assert_eq!(split_netto_and_fee(1000, 10000), (0, 1000));
    assert_eq!(split_netto_and_fee(1000, 250), (975, 25));
    assert_eq!(split_netto_and_fee(u128::MAX, 10000), (0, u128::MAX));
    let (net, fee) = split_netto_and_fee(u128::MAX, 400);
    assert_eq!(net + fee, u128::MAX);
    assert_eq!(fee, u128::MAX / 10000 * 400 + (u128::MAX % 10000) * 400 / 10000);
    assert_eq!(fee, 13611294676837538538534984297270728458);
}

#[test]
fn leftovers_of_a_closing_contribution() {
    assert_eq!(calculate_leftovers(384, 1000, 672, 28), Some((56, 2)));
    assert_eq!(calculate_leftovers(0, 100, 100, 4), Some((0, 0)));
    assert_eq!(calculate_leftovers(0, 100, 200, 10), Some((100, 5)));
    assert_eq!(calculate_leftovers(0, 1, u128::MAX, u128::MAX), None);
}

#[test]
fn fund_on_an_item() {
    let mut cf = item(1000, 400);
    let r = cf.fund(String::from("a"), 400).unwrap();
    assert_eq!(r.leftover, 0);
    assert_eq!(cf.get_progress(), 384);
    let r = cf.fund(String::from("a"), 700).unwrap();
    assert_eq!(r.leftover, 58);
    assert_eq!(cf.get_ledger().totals_of(&String::from("a")), (1000, 42));
    assert_eq!(cf.get_status(), CrowdfundStatus::Transporting);
    let request = r.mint.unwrap();
    assert_eq!(request.item_index, 3);
    assert_eq!(request.holders, vec![String::from("a")]);
    assert_eq!(request.shares, vec![1000]);
}

#[test]
fn exact_close_returns_nothing() {
    let mut cf = item(960, 400);
    let r = cf.fund(String::from("a"), 1000).unwrap();
    assert_eq!(r.leftover, 0);
    assert_eq!(cf.get_progress(), 960);
    assert!(r.mint.is_some());
}

#[test]
fn fee_total_overflow_is_refused() {
    let mut cf = item(u128::MAX, 10000);
    let r = cf.fund(String::from("a"), u128::MAX).unwrap();
    assert_eq!(r.leftover, 0);
    assert_eq!(cf.get_ledger().totals_of(&String::from("a")), (0, u128::MAX));
    assert_eq!(cf.fund(String::from("a"), 1).unwrap_err(), FundError::Overflow);
    assert_eq!(cf.get_ledger().totals_of(&String::from("a")), (0, u128::MAX));
    assert_eq!(cf.get_progress(), 0);
}

#[test]
fn leftover_overflow_is_refused() {
    let mut cf = item(1, 5000);
    assert_eq!(cf.fund(String::from("a"), u128::MAX).unwrap_err(), FundError::Overflow);
    assert_eq!(cf.get_progress(), 0);
    assert_eq!(cf.get_status(), CrowdfundStatus::InProgress);
    assert_eq!(cf.get_ledger().len(), 0);
}

#[test]
fn set_status_moves_forward() {
    let mut cf = item(10, 0);
    cf.set_status(CrowdfundStatus::Buying);
    assert_eq!(cf.get_status(), CrowdfundStatus::Buying);
    assert_eq!(cf.fund(String::from("a"), 1).unwrap_err(), FundError::GoalAlreadyReached);
}

#[test]
fn metadata_is_kept() {
    let cf = item(10, 0);
    assert_eq!(cf.get_metadata().title, Some(String::from("watch")));
    assert_eq!(cf.get_goal(), 10);
    assert_eq!(cf.get_fee_percentage(), 0);
}

#[test]
fn item_index_messages() {
    assert_eq!(parse_item_index("0"), Some(0));
    assert_eq!(parse_item_index("42"), Some(42));
    assert_eq!(parse_item_index("+5"), Some(5));
    assert_eq!(parse_item_index("007"), Some(7));
    assert_eq!(parse_item_index("18446744073709551615"), Some(u64::MAX));
    assert_eq!(parse_item_index("18446744073709551616"), None);
    assert_eq!(parse_item_index(""), None);
    assert_eq!(parse_item_index("+"), None);
    assert_eq!(parse_item_index("-1"), None);
    assert_eq!(parse_item_index("1a"), None);
    assert_eq!(parse_item_index(" 1"), None);
    assert_eq!(parse_item_index("٣"), None);
}
