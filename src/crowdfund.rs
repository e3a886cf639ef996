//! One crowdfunded item: its goal, fee rate, ledger and status, the `fund`
//! operation, and the hand-off of the final share snapshot to tokenization.
use vstd::prelude::*;
use crate::fee::{calculate_leftovers, fee_leftover_of, fee_of, split_netto_and_fee, valid_fee_rate};
use crate::ledger::{
    amounts, bounded, fees_paid_by, funded_by, holders_of, lemma_put, lemma_put_bounded,
    lemma_entry_within_total, lemma_index_of, put, shares_of, string_views, total_funded,
    unique_accounts, Contribution, Ledger,
};

verus! {

/// Supply of the fungible token minted for a tokenized item.
pub const DEFAULT_TOKEN_SUPPLY: u128 = 1_000_000;

/// The lifecycle of a crowdfunded item.
#[derive(Clone, Copy, Debug, PartialEq, Eq, Structural)]
pub enum CrowdfundStatus {
    Created,
    Rejected,
    InProgress,
    OutOfTime,
    Buying,
    FailedBuying,
    Transporting,
    FailedTransporting,
    Tokenized,
}

/// Where the tokenization request of an item stands.
#[derive(Clone, Copy, Debug, PartialEq, Eq, Structural)]
pub enum MintState {
    NotRequested,
    Pending,
    Confirmed,
    Failed,
}

/// Why a contribution was refused.
#[derive(Clone, Copy, Debug, PartialEq, Eq, Structural)]
pub enum FundError {
    /// The item takes no more funding: its goal is met or its status does
    /// not allow it.
    GoalAlreadyReached,
    /// A contributor's total would not fit in a `u128`.
    Overflow,
}

/// Descriptive metadata of an item, handed on to tokenization. The two
/// hashes are held as base64 text.
#[derive(Clone, Debug, Default, PartialEq, Eq)]
pub struct ItemMetadata {
    pub title: Option<String>,
    pub description: Option<String>,
    pub media: Option<String>,
    pub media_hash: Option<String>,
    pub copies: Option<u64>,
    pub issued_at: Option<String>,
    pub expires_at: Option<String>,
    pub starts_at: Option<String>,
    pub updated_at: Option<String>,
    pub extra: Option<String>,
    pub reference: Option<String>,
    pub reference_hash: Option<String>,
}

fn copy_text(t: &Option<String>) -> (r: Option<String>)
    ensures
        r == *t,
{
    match t {
        Some(s) => Some(s.clone()),
        None => None,
    }
}

impl ItemMetadata {
    /// A copy of these metadata.
    pub fn duplicate(&self) -> (r: ItemMetadata)
        ensures
            r == *self,
    {
        ItemMetadata {
            title: copy_text(&self.title),
            description: copy_text(&self.description),
            media: copy_text(&self.media),
            media_hash: copy_text(&self.media_hash),
            copies: self.copies,
            issued_at: copy_text(&self.issued_at),
            expires_at: copy_text(&self.expires_at),
            starts_at: copy_text(&self.starts_at),
            updated_at: copy_text(&self.updated_at),
            extra: copy_text(&self.extra),
            reference: copy_text(&self.reference),
            reference_hash: copy_text(&self.reference_hash),
        }
    }
}

/// The request to mint the item's token and distribute it over the holders
/// in proportion to their shares.
#[derive(Debug)]
pub struct MintRequest {
    pub nft_account_id: String,
    pub item_index: u64,
    pub metadata: ItemMetadata,
    pub ft_supply: u128,
    pub holders: Vec<String>,
    pub shares: Vec<u128>,
}

/// What a successful contribution hands back: the amount owed to the
/// contributor, and the tokenization request where it closed the goal.
#[derive(Debug)]
pub struct FundReceipt {
    pub leftover: u128,
    pub mint: Option<MintRequest>,
}

/// A crowdfunded item as mathematical values.
pub struct CrowdfundModel {
    pub nft_account_id: Seq<char>,
    pub identifier: int,
    pub fee_bp: int,
    pub metadata: ItemMetadata,
    pub goal: int,
    pub progress: int,
    pub ledger: Seq<Contribution>,
    pub status: CrowdfundStatus,
    pub mint: MintState,
}

/// Order of the statuses along the lifecycle.
pub open spec fn status_rank(s: CrowdfundStatus) -> int {
    match s {
        CrowdfundStatus::Created => 0,
        CrowdfundStatus::InProgress => 1,
        CrowdfundStatus::OutOfTime => 2,
        CrowdfundStatus::Buying => 2,
        CrowdfundStatus::FailedBuying => 3,
        CrowdfundStatus::Transporting => 4,
        CrowdfundStatus::FailedTransporting => 5,
        CrowdfundStatus::Tokenized => 6,
        CrowdfundStatus::Rejected => 6,
    }
}

/// Statuses that are never left.
pub open spec fn is_terminal(s: CrowdfundStatus) -> bool {
    s == CrowdfundStatus::Tokenized || s == CrowdfundStatus::Rejected
}

/// Whether the status may go from `from` to `to`: it stays, or moves forward
/// out of a non-terminal status (and only a created item can be rejected).
pub open spec fn advances(from: CrowdfundStatus, to: CrowdfundStatus) -> bool {
    from == to || {
        &&& !is_terminal(from)
        &&& status_rank(from) < status_rank(to)
        &&& (to == CrowdfundStatus::Rejected ==> from == CrowdfundStatus::Created)
    }
}

impl CrowdfundModel {
    /// The invariant of an item: the ledger's net totals add up to the
    /// progress, which never exceeds the goal.
    pub open spec fn wf(self) -> bool {
        &&& 0 < self.goal <= u128::MAX
        &&& 0 <= self.identifier <= u64::MAX
        &&& valid_fee_rate(self.fee_bp)
        &&& 0 <= self.progress <= self.goal
        &&& unique_accounts(self.ledger)
        &&& bounded(self.ledger)
        &&& total_funded(self.ledger) == self.progress
    }

    /// Whether the item takes contributions.
    pub open spec fn can_fund(self) -> bool {
        self.status == CrowdfundStatus::InProgress && self.progress < self.goal
    }

    /// The fee on a gross `amount`.
    pub open spec fn fee_on(self, amount: int) -> int {
        fee_of(amount, self.fee_bp)
    }

    /// The net part of a gross `amount`.
    pub open spec fn net_of(self, amount: int) -> int {
        amount - self.fee_on(amount)
    }

    /// Whether a gross `amount` meets or passes the goal.
    pub open spec fn closes_goal(self, amount: int) -> bool {
        self.progress + self.net_of(amount) >= self.goal
    }

    /// The net part of `amount` beyond the goal.
    pub open spec fn net_leftover(self, amount: int) -> int {
        self.progress + self.net_of(amount) - self.goal
    }

    /// The fee refunded along with the net leftover.
    pub open spec fn fee_leftover(self, amount: int) -> int {
        fee_leftover_of(self.fee_on(amount), self.net_leftover(amount), self.net_of(amount))
    }

    /// What a contribution of `amount` by `sender` gives back: the leftover
    /// owed to the sender, or why it is refused.
    pub open spec fn fund_outcome(self, sender: Seq<char>, amount: int) -> Result<int, FundError> {
        if !self.can_fund() {
            Err(FundError::GoalAlreadyReached)
        } else if funded_by(self.ledger, sender) + self.net_of(amount) > u128::MAX
            || fees_paid_by(self.ledger, sender) + self.fee_on(amount) > u128::MAX
            || (self.closes_goal(amount) && self.fee_on(amount) * self.net_leftover(amount) > u128::MAX) {
            Err(FundError::Overflow)
        } else if self.closes_goal(amount) {
            Ok(self.net_leftover(amount) + self.fee_leftover(amount))
        } else {
            Ok(0)
        }
    }

    /// The item after an accepted contribution of `amount` by `sender`.
    pub open spec fn after_fund(self, sender: Seq<char>, amount: int) -> CrowdfundModel {
        let net: int = self.net_of(amount);
        let fee: int = self.fee_on(amount);
        let funded: int = funded_by(self.ledger, sender);
        let fees: int = fees_paid_by(self.ledger, sender);
        if self.closes_goal(amount) {
            CrowdfundModel {
                ledger: put(
                    self.ledger,
                    sender,
                    funded + net - self.net_leftover(amount),
                    fees + fee - self.fee_leftover(amount),
                ),
                progress: self.goal,
                status: CrowdfundStatus::Transporting,
                mint: MintState::Pending,
                ..self
            }
        } else {
            CrowdfundModel {
                ledger: put(self.ledger, sender, funded + net, fees + fee),
                progress: self.progress + net,
                ..self
            }
        }
    }

    /// The item after a contribution, accepted or refused.
    pub open spec fn fund_step(self, sender: Seq<char>, amount: int) -> CrowdfundModel {
        if self.fund_outcome(sender, amount) is Ok {
            self.after_fund(sender, amount)
        } else {
            self
        }
    }

    /// The item after the tokenization service reported `succeeded`.
    pub open spec fn after_confirm(self, succeeded: bool) -> CrowdfundModel {
        if self.status == CrowdfundStatus::Transporting && self.mint == MintState::Pending {
            if succeeded {
                CrowdfundModel { status: CrowdfundStatus::Tokenized, mint: MintState::Confirmed, ..self }
            } else {
                CrowdfundModel { mint: MintState::Failed, ..self }
            }
        } else {
            self
        }
    }
}

/// `req` asks to tokenize `m` with its current contributors and net totals.
pub open spec fn is_snapshot_of(req: MintRequest, m: CrowdfundModel) -> bool {
    &&& req.nft_account_id@ == m.nft_account_id
    &&& req.item_index == m.identifier
    &&& req.metadata == m.metadata
    &&& req.ft_supply == DEFAULT_TOKEN_SUPPLY
    &&& string_views(req.holders@) == holders_of(m.ledger)
    &&& amounts(req.shares@) == shares_of(m.ledger)
}

/// An accepted contribution keeps the invariant, moves the status forward,
/// and owes back no more than the gross amount.
pub proof fn lemma_fund_step(m: CrowdfundModel, sender: Seq<char>, amount: int)
    requires
        m.wf(),
        0 <= amount <= u128::MAX,
    ensures
        m.fund_step(sender, amount).wf(),
        advances(m.status, m.fund_step(sender, amount).status),
        m.fund_outcome(sender, amount) matches Ok(left) ==> 0 <= left <= amount,
        m.fund_step(sender, amount).goal == m.goal,
        m.fund_step(sender, amount).fee_bp == m.fee_bp,
{
    if m.fund_outcome(sender, amount) is Ok {
        crate::fee::lemma_fee_bounds(amount, m.fee_bp);
        let net: int = m.net_of(amount);
        let fee: int = m.fee_on(amount);
        let funded: int = funded_by(m.ledger, sender);
        let fees: int = fees_paid_by(m.ledger, sender);
        lemma_index_of(m.ledger, sender);
        if funded_by(m.ledger, sender) != 0 {
            lemma_entry_within_total(m.ledger, crate::ledger::index_of(m.ledger, sender));
        }
        if m.closes_goal(amount) {
            let nl: int = m.net_leftover(amount);
            crate::fee::lemma_fee_leftover_bounds(fee, nl, net);
            lemma_put(m.ledger, sender, funded + net - nl, fees + fee - m.fee_leftover(amount));
            lemma_put_bounded(m.ledger, sender, funded + net - nl, fees + fee - m.fee_leftover(amount));
        } else {
            lemma_put(m.ledger, sender, funded + net, fees + fee);
            lemma_put_bounded(m.ledger, sender, funded + net, fees + fee);
        }
    }
}

/// A crowdfunded item.
pub struct Crowdfund {
    nft_account_id: String,
    identifier: u64,
    item_fee_bp: u64,
    metadata: ItemMetadata,
    goal: u128,
    ledger: Ledger,
    progress: u128,
    status: CrowdfundStatus,
    mint: MintState,
}

impl View for Crowdfund {
    type V = CrowdfundModel;

    closed spec fn view(&self) -> CrowdfundModel {
        CrowdfundModel {
            nft_account_id: self.nft_account_id@,
            identifier: self.identifier as int,
            fee_bp: self.item_fee_bp as int,
            metadata: self.metadata,
            goal: self.goal as int,
            progress: self.progress as int,
            ledger: self.ledger@,
            status: self.status,
            mint: self.mint,
        }
    }
}

impl Crowdfund {
    /// A new item in progress, with nothing funded yet.
    pub fn new(
        nft_account_id: String,
        identifier: u64,
        item_metadata: ItemMetadata,
        goal: u128,
        item_fee_bp: u64,
    ) -> (r: Crowdfund)
        requires
            goal > 0,
            valid_fee_rate(item_fee_bp as int),
        ensures
            r@.wf(),
            r@.nft_account_id == nft_account_id@,
            r@.identifier == identifier,
            r@.metadata == item_metadata,
            r@.goal == goal,
            r@.fee_bp == item_fee_bp,
            r@.progress == 0,
            r@.ledger == Seq::<Contribution>::empty(),
            r@.status == CrowdfundStatus::InProgress,
            r@.mint == MintState::NotRequested,
    {
        Crowdfund {
            nft_account_id,
            identifier,
            item_fee_bp,
            metadata: item_metadata,
            goal,
            ledger: Ledger::new(),
            progress: 0,
            status: CrowdfundStatus::InProgress,
            mint: MintState::NotRequested,
        }
    }

    /// An item rebuilt from its parts, where they keep the invariant.
    pub fn from_parts(
        nft_account_id: String,
        identifier: u64,
        item_metadata: ItemMetadata,
        goal: u128,
        item_fee_bp: u64,
        ledger: Ledger,
        progress: u128,
        status: CrowdfundStatus,
        mint: MintState,
    ) -> (r: Option<Crowdfund>)
        ensures
            r is Some <==> (CrowdfundModel {
                nft_account_id: nft_account_id@,
                identifier: identifier as int,
                fee_bp: item_fee_bp as int,
                metadata: item_metadata,
                goal: goal as int,
                progress: progress as int,
                ledger: ledger@,
                status,
                mint,
            }).wf(),
            r matches Some(c) ==> c@ == (CrowdfundModel {
                nft_account_id: nft_account_id@,
                identifier: identifier as int,
                fee_bp: item_fee_bp as int,
                metadata: item_metadata,
                goal: goal as int,
                progress: progress as int,
                ledger: ledger@,
                status,
                mint,
            }),
    {
        let c = Crowdfund {
            nft_account_id,
            identifier,
            item_fee_bp,
            metadata: item_metadata,
            goal,
            ledger,
            progress,
            status,
            mint,
        };
        if c.is_consistent() {
            Some(c)
        } else {
            None
        }
    }

    /// Whether the item keeps its invariant.
    pub fn is_consistent(&self) -> (r: bool)
        ensures
            r == self@.wf(),
    {
        proof {
            self.ledger.lemma_bounded();
        }
        if self.goal == 0 || self.item_fee_bp > 10000 || self.progress > self.goal {
            return false;
        }
        if !self.ledger.has_unique_accounts() {
            return false;
        }
        match self.ledger.total() {
            Some(t) => t == self.progress,
            None => false,
        }
    }

    /// The account of the collection that tokenizes the item.
    pub fn get_nft_account_id(&self) -> (r: &String)
        ensures
            r@ == self@.nft_account_id,
    {
        &self.nft_account_id
    }

    /// The item's index in its registry.
    pub fn get_identifier(&self) -> (r: u64)
        ensures
            r == self@.identifier,
    {
        self.identifier
    }

    pub fn get_metadata(&self) -> (r: ItemMetadata)
        ensures
            r == self@.metadata,
    {
        self.metadata.duplicate()
    }

    pub fn get_progress(&self) -> (r: u128)
        ensures
            r == self@.progress,
    {
        self.progress
    }

    pub fn get_goal(&self) -> (r: u128)
        ensures
            r == self@.goal,
    {
        self.goal
    }

    /// The fee rate, in basis points.
    pub fn get_fee_percentage(&self) -> (r: u64)
        ensures
            r == self@.fee_bp,
    {
        self.item_fee_bp
    }

    pub fn get_status(&self) -> (r: CrowdfundStatus)
        ensures
            r == self@.status,
    {
        self.status
    }

    pub fn get_mint_state(&self) -> (r: MintState)
        ensures
            r == self@.mint,
    {
        self.mint
    }

    /// The contributors' totals.
    pub fn get_ledger(&self) -> (r: &Ledger)
        ensures
            r@ == self@.ledger,
    {
        &self.ledger
    }

    /// Moves the status forward.
    pub fn set_status(&mut self, status: CrowdfundStatus)
        requires
            advances(old(self)@.status, status),
        ensures
            final(self)@ == (CrowdfundModel { status, ..old(self)@ }),
    {
        self.status = status;
    }

    /// Takes a contribution of `amount` from `sender_id`.
    ///
    /// The fee is split off; the sender's totals grow by the net part and
    /// the fee. Where the goal is met or passed, only the part that closes
    /// the goal is kept: the net part beyond it and the fee's proportional
    /// share of it are owed back, the progress becomes the goal, the status
    /// becomes `Transporting` and the tokenization request is returned.
    /// A refused contribution changes nothing.
    pub fn fund(&mut self, sender_id: String, amount: u128) -> (r: Result<FundReceipt, FundError>)
        requires
            old(self)@.wf(),
        ensures
            final(self)@.wf(),
            final(self)@ == old(self)@.fund_step(sender_id@, amount as int),
            advances(old(self)@.status, final(self)@.status),
            r matches Err(e) ==> old(self)@.fund_outcome(sender_id@, amount as int) == Err::<int, FundError>(e),
            r matches Ok(receipt) ==> {
                &&& old(self)@.fund_outcome(sender_id@, amount as int) == Ok::<int, FundError>(receipt.leftover as int)
                &&& (receipt.mint is Some <==> old(self)@.closes_goal(amount as int))
                &&& (receipt.mint matches Some(req) ==> is_snapshot_of(req, final(self)@))
            },
    {
        proof {
            lemma_fund_step(self@, sender_id@, amount as int);
            self.ledger.lemma_bounded();
        }
        if !(matches!(self.status, CrowdfundStatus::InProgress) && self.progress < self.goal) {
            return Err(FundError::GoalAlreadyReached);
        }
        let (net, fee) = split_netto_and_fee(amount, self.item_fee_bp);
        let (funded, fees) = self.ledger.totals_of(&sender_id);
        let new_funded: u128 = match funded.checked_add(net) {
            Some(v) => v,
            None => return Err(FundError::Overflow),
        };
        let new_fees: u128 = match fees.checked_add(fee) {
            Some(v) => v,
            None => return Err(FundError::Overflow),
        };
        if net < self.goal - self.progress {
            self.ledger.insert(sender_id, new_funded, new_fees);
            self.progress = self.progress + net;
            Ok(FundReceipt { leftover: 0, mint: None })
        } else {
            let (net_leftover, fee_leftover) = match calculate_leftovers(self.progress, self.goal, net, fee) {
                Some(p) => p,
                None => return Err(FundError::Overflow),
            };
            self.ledger.insert(sender_id, new_funded - net_leftover, new_fees - fee_leftover);
            self.progress = self.goal;
            self.status = CrowdfundStatus::Transporting;
            self.mint = MintState::Pending;
            let request = self.tokenize_item();
            Ok(FundReceipt { leftover: net_leftover + fee_leftover, mint: Some(request) })
        }
    }

    /// The tokenization request for a fully funded item: its metadata, the
    /// token supply, and each contributor with their net total as share.
    pub fn tokenize_item(&self) -> (r: MintRequest)
        requires
            self@.progress == self@.goal,
            self@.status != CrowdfundStatus::Tokenized,
        ensures
            is_snapshot_of(r, self@),
    {
        MintRequest {
            nft_account_id: self.nft_account_id.clone(),
            item_index: self.identifier,
            metadata: self.metadata.duplicate(),
            ft_supply: DEFAULT_TOKEN_SUPPLY,
            holders: self.ledger.holders(),
            shares: self.ledger.shares(),
        }
    }

    /// Applies the tokenization service's answer: success makes a
    /// transporting item `Tokenized`; failure leaves its status as it is
    /// and records the request as failed.
    pub fn confirm_mint(&mut self, succeeded: bool)
        requires
            old(self)@.wf(),
        ensures
            final(self)@.wf(),
            final(self)@ == old(self)@.after_confirm(succeeded),
            advances(old(self)@.status, final(self)@.status),
    {
        if matches!(self.status, CrowdfundStatus::Transporting) && matches!(self.mint, MintState::Pending) {
            if succeeded {
                self.status = CrowdfundStatus::Tokenized;
                self.mint = MintState::Confirmed;
            } else {
                self.mint = MintState::Failed;
            }
        }
    }
}

} // verus!
