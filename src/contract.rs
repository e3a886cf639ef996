//! The registry of crowdfunded items: an append-only list of items addressed
//! by index, the operators allowed to create items, and the entry points for
//! payments and for the tokenization service's answers.
use vstd::prelude::*;
use crate::crowdfund::{
    advances, is_snapshot_of, lemma_fund_step, Crowdfund, CrowdfundModel, CrowdfundStatus, FundError,
    FundReceipt, ItemMetadata, MintState,
};
use crate::fee::valid_fee_rate;
use crate::ledger::{string_views, Contribution};
use crate::message::{decimal_u64, parse_item_index};

verus! {

/// Fee rate given to new items: 4%, in basis points.
pub const DEFAULT_FEE_BASIS_POINTS: u64 = 400;

/// Why a registry operation was refused.
#[derive(Clone, Copy, Debug, PartialEq, Eq, Structural)]
pub enum ContractError {
    /// The caller is not an operator.
    NotOperator,
    /// The goal is zero.
    InvalidGoal,
    /// Only the registry's own account may add operators.
    NotSelf,
    /// No item has this index.
    UnknownItem,
    /// The payment came in a coin other than the accepted one.
    CoinNotAccepted,
    /// The payment's message is not an item index.
    MalformedMessage,
    /// The item refused the contribution.
    Fund(FundError),
}

/// The registry as mathematical values.
pub struct ContractModel {
    pub current_account_id: Seq<char>,
    pub accepted_coin: Seq<char>,
    pub nft_account_id: Seq<char>,
    pub default_fee_bp: int,
    pub crowdfunds: Seq<CrowdfundModel>,
    pub operators: Seq<Seq<char>>,
}

impl ContractModel {
    /// Every item keeps its own invariant, is numbered by its position and
    /// tokenizes through the registry's collection.
    pub open spec fn wf(self) -> bool {
        &&& valid_fee_rate(self.default_fee_bp)
        &&& forall|i: int| 0 <= i < self.crowdfunds.len() ==> {
            &&& (#[trigger] self.crowdfunds[i]).wf()
            &&& self.crowdfunds[i].identifier == i
            &&& self.crowdfunds[i].nft_account_id == self.nft_account_id
        }
    }

    /// The item that `new_item` appends.
    pub open spec fn fresh_item(self, metadata: ItemMetadata, goal: int) -> CrowdfundModel {
        CrowdfundModel {
            nft_account_id: self.nft_account_id,
            identifier: self.crowdfunds.len() as int,
            fee_bp: self.default_fee_bp,
            metadata,
            goal,
            progress: 0,
            ledger: Seq::<Contribution>::empty(),
            status: CrowdfundStatus::InProgress,
            mint: MintState::NotRequested,
        }
    }

    /// The registry with `crowdfunds` in place of its items.
    pub open spec fn with_items(self, crowdfunds: Seq<CrowdfundModel>) -> ContractModel {
        ContractModel { crowdfunds, ..self }
    }
}

/// No item's status moved backward, and no item went away.
pub open spec fn statuses_advance(before: Seq<CrowdfundModel>, after: Seq<CrowdfundModel>) -> bool {
    &&& before.len() <= after.len()
    &&& forall|i: int| 0 <= i < before.len() ==> advances(#[trigger] before[i].status, after[i].status)
}

/// The items that `v` holds.
pub open spec fn crowdfund_views(v: Seq<Crowdfund>) -> Seq<CrowdfundModel> {
    v.map_values(|c: Crowdfund| c@)
}

/// The registry.
pub struct Contract {
    current_account_id: String,
    accepted_coin: String,
    nft_account_id: String,
    default_fee_bp: u64,
    crowdfunds: Vec<Crowdfund>,
    crowdfund_operators: Vec<String>,
}

impl View for Contract {
    type V = ContractModel;

    closed spec fn view(&self) -> ContractModel {
        ContractModel {
            current_account_id: self.current_account_id@,
            accepted_coin: self.accepted_coin@,
            nft_account_id: self.nft_account_id@,
            default_fee_bp: self.default_fee_bp as int,
            crowdfunds: crowdfund_views(self.crowdfunds@),
            operators: string_views(self.crowdfund_operators@),
        }
    }
}

impl Contract {
    /// A registry run by `current_account_id`, tokenizing through
    /// `nft_account_id` and paid in `accepted_coin`, with no items and no
    /// operators.
    pub fn new(current_account_id: String, nft_account_id: String, accepted_coin: String) -> (r: Contract)
        ensures
            r@.wf(),
            r@.current_account_id == current_account_id@,
            r@.nft_account_id == nft_account_id@,
            r@.accepted_coin == accepted_coin@,
            r@.default_fee_bp == DEFAULT_FEE_BASIS_POINTS,
            r@.crowdfunds == Seq::<CrowdfundModel>::empty(),
            r@.operators == Seq::<Seq<char>>::empty(),
    {
        let r = Contract {
            current_account_id,
            accepted_coin,
            nft_account_id,
            default_fee_bp: DEFAULT_FEE_BASIS_POINTS,
            crowdfunds: Vec::new(),
            crowdfund_operators: Vec::new(),
        };
        assert(r@.crowdfunds =~= Seq::<CrowdfundModel>::empty());
        assert(r@.operators =~= Seq::<Seq<char>>::empty());
        r
    }

    /// A registry rebuilt from its parts, where they keep the invariant.
    pub fn from_parts(
        current_account_id: String,
        nft_account_id: String,
        accepted_coin: String,
        default_fee_bp: u64,
        crowdfunds: Vec<Crowdfund>,
        operators: Vec<String>,
    ) -> (r: Option<Contract>)
        ensures
            r is Some <==> (ContractModel {
                current_account_id: current_account_id@,
                accepted_coin: accepted_coin@,
                nft_account_id: nft_account_id@,
                default_fee_bp: default_fee_bp as int,
                crowdfunds: crowdfund_views(crowdfunds@),
                operators: string_views(operators@),
            }).wf(),
            r matches Some(c) ==> c@ == (ContractModel {
                current_account_id: current_account_id@,
                accepted_coin: accepted_coin@,
                nft_account_id: nft_account_id@,
                default_fee_bp: default_fee_bp as int,
                crowdfunds: crowdfund_views(crowdfunds@),
                operators: string_views(operators@),
            }),
    {
        if default_fee_bp > 10000 {
            return None;
        }
        let mut i: usize = 0;
        while i < crowdfunds.len()
            invariant
                i <= crowdfunds@.len(),
                forall|j: int| 0 <= j < i ==> {
                    &&& (#[trigger] crowdfunds@[j])@.wf()
                    &&& crowdfunds@[j]@.identifier == j
                    &&& crowdfunds@[j]@.nft_account_id == nft_account_id@
                },
            decreases crowdfunds@.len() - i,
        {
            let item = &crowdfunds[i];
            if !item.is_consistent() || item.get_identifier() != i as u64 || *item.get_nft_account_id() != nft_account_id {
                assert(crowdfund_views(crowdfunds@)[i as int] == crowdfunds@[i as int]@);
                return None;
            }
            i = i + 1;
        }
        let r = Contract {
            current_account_id,
            accepted_coin,
            nft_account_id,
            default_fee_bp,
            crowdfunds,
            crowdfund_operators: operators,
        };
        assert forall|j: int| 0 <= j < r@.crowdfunds.len() implies {
            &&& (#[trigger] r@.crowdfunds[j]).wf()
            &&& r@.crowdfunds[j].identifier == j
            &&& r@.crowdfunds[j].nft_account_id == r@.nft_account_id
        } by {
            assert(r@.crowdfunds[j] == r.crowdfunds@[j]@);
        }
        Some(r)
    }

    /// The registry's own account.
    pub fn get_current_account_id(&self) -> (r: &String)
        ensures
            r@ == self@.current_account_id,
    {
        &self.current_account_id
    }

    /// The coin accepted as payment.
    pub fn get_accepted_coin(&self) -> (r: &String)
        ensures
            r@ == self@.accepted_coin,
    {
        &self.accepted_coin
    }

    /// The collection that tokenizes the items.
    pub fn get_nft_account_id(&self) -> (r: &String)
        ensures
            r@ == self@.nft_account_id,
    {
        &self.nft_account_id
    }

    /// The fee rate given to new items, in basis points.
    pub fn get_default_fee_percentage(&self) -> (r: u64)
        ensures
            r == self@.default_fee_bp,
    {
        self.default_fee_bp
    }

    /// The operators, in the order they were added.
    pub fn get_operators(&self) -> (r: &Vec<String>)
        ensures
            string_views(r@) == self@.operators,
    {
        &self.crowdfund_operators
    }

    /// The number of items.
    pub fn get_crowdfund_count(&self) -> (r: usize)
        ensures
            r == self@.crowdfunds.len(),
    {
        self.crowdfunds.len()
    }

    /// Whether `caller` may create items.
    pub fn caller_is_operator(&self, caller: &String) -> (r: bool)
        ensures
            r == self@.operators.contains(caller@),
    {
        let mut i: usize = 0;
        while i < self.crowdfund_operators.len()
            invariant
                i <= self.crowdfund_operators@.len(),
                self@.operators.len() == self.crowdfund_operators@.len(),
                forall|j: int| 0 <= j < i ==> self@.operators[j] != caller@,
            decreases self.crowdfund_operators@.len() - i,
        {
            if self.crowdfund_operators[i] == *caller {
                assert(self@.operators[i as int] == caller@);
                return true;
            }
            i = i + 1;
        }
        false
    }

    /// Appends a new item in progress toward `goal`, with the default fee
    /// rate, and returns its index. Only an operator may do so, and the goal
    /// must be positive.
    pub fn new_item(&mut self, caller: &String, item_metadata: ItemMetadata, goal: u128) -> (r: Result<u64, ContractError>)
        requires
            old(self)@.wf(),
        ensures
            final(self)@.wf(),
            statuses_advance(old(self)@.crowdfunds, final(self)@.crowdfunds),
            !old(self)@.operators.contains(caller@) ==> r == Err::<u64, ContractError>(ContractError::NotOperator),
            old(self)@.operators.contains(caller@) && goal == 0 ==> r == Err::<u64, ContractError>(ContractError::InvalidGoal),
            r is Err ==> final(self)@ == old(self)@,
            old(self)@.operators.contains(caller@) && goal > 0 ==> {
                &&& r == Ok::<u64, ContractError>(old(self)@.crowdfunds.len() as u64)
                &&& final(self)@ == old(self)@.with_items(
                    old(self)@.crowdfunds.push(old(self)@.fresh_item(item_metadata, goal as int)))
            },
    {
        if !self.caller_is_operator(caller) {
            return Err(ContractError::NotOperator);
        }
        if goal == 0 {
            return Err(ContractError::InvalidGoal);
        }
        let index: u64 = self.crowdfunds.len() as u64;
        let item = Crowdfund::new(self.nft_account_id.clone(), index, item_metadata, goal, self.default_fee_bp);
        let ghost before = self.crowdfunds@;
        self.crowdfunds.push(item);
        assert(crowdfund_views(self.crowdfunds@) =~= crowdfund_views(before).push(item@));
        assert(self@ =~= old(self)@.with_items(old(self)@.crowdfunds.push(old(self)@.fresh_item(item_metadata, goal as int))));
        assert forall|j: int| 0 <= j < self@.crowdfunds.len() implies {
            &&& (#[trigger] self@.crowdfunds[j]).wf()
            &&& self@.crowdfunds[j].identifier == j
            &&& self@.crowdfunds[j].nft_account_id == self@.nft_account_id
        } by {
            if j < old(self)@.crowdfunds.len() {
                assert(self@.crowdfunds[j] == old(self)@.crowdfunds[j]);
            }
        }
        Ok(index)
    }

    /// Adds an operator. Only the registry's own account may do so.
    pub fn add_operator(&mut self, caller: &String, operator: String) -> (r: Result<(), ContractError>)
        requires
            old(self)@.wf(),
        ensures
            final(self)@.wf(),
            statuses_advance(old(self)@.crowdfunds, final(self)@.crowdfunds),
            caller@ != old(self)@.current_account_id ==> {
                &&& r == Err::<(), ContractError>(ContractError::NotSelf)
                &&& final(self)@ == old(self)@
            },
            caller@ == old(self)@.current_account_id ==> {
                &&& r is Ok
                &&& final(self)@ == (ContractModel { operators: old(self)@.operators.push(operator@), ..old(self)@ })
            },
    {
        if *caller != self.current_account_id {
            return Err(ContractError::NotSelf);
        }
        let ghost a = operator@;
        self.crowdfund_operators.push(operator);
        assert(self@.operators =~= old(self)@.operators.push(a));
        Ok(())
    }

    /// The metadata of every item, by index.
    pub fn get_current_items(&self) -> (r: Vec<ItemMetadata>)
        ensures
            r@ == self@.crowdfunds.map_values(|c: CrowdfundModel| c.metadata),
    {
        let mut r: Vec<ItemMetadata> = Vec::new();
        let mut i: usize = 0;
        while i < self.crowdfunds.len()
            invariant
                i <= self.crowdfunds@.len(),
                self@.crowdfunds.len() == self.crowdfunds@.len(),
                r@ =~= self@.crowdfunds.map_values(|c: CrowdfundModel| c.metadata).take(i as int),
            decreases self.crowdfunds@.len() - i,
        {
            let m = self.crowdfunds[i].get_metadata();
            assert(self@.crowdfunds[i as int] == self.crowdfunds@[i as int]@);
            r.push(m);
            i = i + 1;
            assert(r@ =~= self@.crowdfunds.map_values(|c: CrowdfundModel| c.metadata).take(i as int));
        }
        assert(self@.crowdfunds.map_values(|c: CrowdfundModel| c.metadata).take(i as int)
            =~= self@.crowdfunds.map_values(|c: CrowdfundModel| c.metadata));
        r
    }

    /// The item at `item_index`.
    pub fn get_crowdfund(&self, item_index: u64) -> (r: Result<&Crowdfund, ContractError>)
        ensures
            item_index >= self@.crowdfunds.len() ==> r == Err::<&Crowdfund, ContractError>(ContractError::UnknownItem),
            item_index < self@.crowdfunds.len() ==> (r matches Ok(c) && c@ == self@.crowdfunds[item_index as int]),
    {
        if item_index >= self.crowdfunds.len() as u64 {
            return Err(ContractError::UnknownItem);
        }
        Ok(&self.crowdfunds[item_index as usize])
    }

    pub fn get_crowdfund_progress(&self, item_index: u64) -> (r: Result<u128, ContractError>)
        ensures
            item_index >= self@.crowdfunds.len() ==> r == Err::<u128, ContractError>(ContractError::UnknownItem),
            item_index < self@.crowdfunds.len() ==> r == Ok::<u128, ContractError>(self@.crowdfunds[item_index as int].progress as u128),
    {
        match self.get_crowdfund(item_index) {
            Ok(c) => Ok(c.get_progress()),
            Err(e) => Err(e),
        }
    }

    /// The fee rate of an item, in basis points.
    pub fn get_crowdfund_fee_percentage(&self, item_index: u64) -> (r: Result<u64, ContractError>)
        ensures
            item_index >= self@.crowdfunds.len() ==> r == Err::<u64, ContractError>(ContractError::UnknownItem),
            item_index < self@.crowdfunds.len() ==> r == Ok::<u64, ContractError>(self@.crowdfunds[item_index as int].fee_bp as u64),
    {
        match self.get_crowdfund(item_index) {
            Ok(c) => Ok(c.get_fee_percentage()),
            Err(e) => Err(e),
        }
    }

    pub fn get_crowdfund_goal(&self, item_index: u64) -> (r: Result<u128, ContractError>)
        ensures
            item_index >= self@.crowdfunds.len() ==> r == Err::<u128, ContractError>(ContractError::UnknownItem),
            item_index < self@.crowdfunds.len() ==> r == Ok::<u128, ContractError>(self@.crowdfunds[item_index as int].goal as u128),
    {
        match self.get_crowdfund(item_index) {
            Ok(c) => Ok(c.get_goal()),
            Err(e) => Err(e),
        }
    }

    /// The tokenization service's answer for the item at `item_index`.
    /// Always accepted: an unknown index changes nothing.
    pub fn nft_mint_callback(&mut self, item_index: u64, succeeded: bool)
        requires
            old(self)@.wf(),
        ensures
            final(self)@.wf(),
            statuses_advance(old(self)@.crowdfunds, final(self)@.crowdfunds),
            item_index >= old(self)@.crowdfunds.len() ==> final(self)@ == old(self)@,
            item_index < old(self)@.crowdfunds.len() ==> final(self)@ == old(self)@.with_items(
                old(self)@.crowdfunds.update(item_index as int, old(self)@.crowdfunds[item_index as int].after_confirm(succeeded))),
    {
        if item_index >= self.crowdfunds.len() as u64 {
            return;
        }
        let i: usize = item_index as usize;
        assert(self@.crowdfunds[i as int] == self.crowdfunds@[i as int]@);
        let ghost before = self.crowdfunds@;
        self.crowdfunds[i].confirm_mint(succeeded);
        proof {
            let target = old(self)@.with_items(
                old(self)@.crowdfunds.update(i as int, old(self)@.crowdfunds[i as int].after_confirm(succeeded)));
            assert(crowdfund_views(self.crowdfunds@) =~= target.crowdfunds);
            assert(self@ =~= target);
        }
    }

    /// A payment of `amount` from `sender_id`, notified by the coin's
    /// account `predecessor`, toward the item whose index `msg` holds.
    /// Returns what the item's `fund` returns: the leftover owed back to the
    /// sender and, where the goal was closed, the tokenization request.
    pub fn ft_on_transfer(&mut self, predecessor: &String, sender_id: String, amount: u128, msg: &str) -> (r: Result<FundReceipt, ContractError>)
        requires
            old(self)@.wf(),
        ensures
            final(self)@.wf(),
            statuses_advance(old(self)@.crowdfunds, final(self)@.crowdfunds),
            r is Err ==> final(self)@ == old(self)@,
            predecessor@ != old(self)@.accepted_coin ==> r == Err::<FundReceipt, ContractError>(ContractError::CoinNotAccepted),
            predecessor@ == old(self)@.accepted_coin ==> match decimal_u64(msg@) {
                None => r == Err::<FundReceipt, ContractError>(ContractError::MalformedMessage),
                Some(i) => if i >= old(self)@.crowdfunds.len() {
                    r == Err::<FundReceipt, ContractError>(ContractError::UnknownItem)
                } else {
                    let item = old(self)@.crowdfunds[i as int];
                    &&& final(self)@ == old(self)@.with_items(
                        old(self)@.crowdfunds.update(i as int, item.fund_step(sender_id@, amount as int)))
                    &&& match item.fund_outcome(sender_id@, amount as int) {
                        Err(e) => r == Err::<FundReceipt, ContractError>(ContractError::Fund(e)),
                        Ok(left) => r matches Ok(receipt) && {
                            &&& receipt.leftover == left
                            &&& (receipt.mint is Some <==> item.closes_goal(amount as int))
                            &&& (receipt.mint matches Some(req) ==> is_snapshot_of(req, final(self)@.crowdfunds[i as int]))
                        },
                    }
                },
            },
    {
        if *predecessor != self.accepted_coin {
            return Err(ContractError::CoinNotAccepted);
        }
        let item_index: u64 = match parse_item_index(msg) {
            Some(i) => i,
            None => return Err(ContractError::MalformedMessage),
        };
        if item_index >= self.crowdfunds.len() as u64 {
            return Err(ContractError::UnknownItem);
        }
        let i: usize = item_index as usize;
        assert(self@.crowdfunds[i as int] == self.crowdfunds@[i as int]@);
        proof {
            lemma_fund_step(self@.crowdfunds[i as int], sender_id@, amount as int);
        }
        let ghost sender = sender_id@;
        let result = self.crowdfunds[i].fund(sender_id, amount);
        proof {
            let target = old(self)@.with_items(
                old(self)@.crowdfunds.update(i as int, old(self)@.crowdfunds[i as int].fund_step(sender, amount as int)));
            assert(crowdfund_views(self.crowdfunds@) =~= target.crowdfunds);
            assert(self@ =~= target);
        }
        match result {
            Ok(receipt) => Ok(receipt),
            Err(e) => {
                assert(old(self)@.crowdfunds.update(i as int, old(self)@.crowdfunds[i as int]) =~= old(self)@.crowdfunds);
                Err(ContractError::Fund(e))
            },
        }
    }
}

} // verus!
