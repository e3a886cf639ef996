//! Properties that hold across operations on an item.
use vstd::prelude::*;
use crate::crowdfund::{advances, lemma_fund_step, CrowdfundModel, CrowdfundStatus};
use crate::ledger::{fees_paid_by, funded_by, lemma_put, total_funded};

verus! {

/// The item after a sequence of contributions `(sender, amount)`, each
/// accepted or refused in turn.
pub open spec fn fund_all(m: CrowdfundModel, contributions: Seq<(Seq<char>, int)>) -> CrowdfundModel
    decreases contributions.len(),
{
    if contributions.len() == 0 {
        m
    } else {
        let (sender, amount) = contributions.last();
        fund_all(m, contributions.drop_last()).fund_step(sender, amount)
    }
}

/// A status that moves forward twice has moved forward.
pub proof fn lemma_advances_transitive(a: CrowdfundStatus, b: CrowdfundStatus, c: CrowdfundStatus)
    requires
        advances(a, b),
        advances(b, c),
    ensures
        advances(a, c),
{
}

/// Nothing follows `Tokenized` but `Tokenized`: in particular a tokenized
/// item never goes back to `Transporting`.
pub proof fn lemma_tokenized_is_terminal(s: CrowdfundStatus)
    requires
        advances(CrowdfundStatus::Tokenized, s),
    ensures
        s == CrowdfundStatus::Tokenized,
{
}

/// Conservation: after any sequence of contributions, the contributors' net
/// totals add up to the progress, the progress never exceeds the goal, and
/// the status has only moved forward.
pub proof fn lemma_conservation(m: CrowdfundModel, contributions: Seq<(Seq<char>, int)>)
    requires
        m.wf(),
        forall|i: int| 0 <= i < contributions.len() ==> 0 <= (#[trigger] contributions[i]).1 <= u128::MAX,
    ensures
        fund_all(m, contributions).wf(),
        total_funded(fund_all(m, contributions).ledger) == fund_all(m, contributions).progress,
        0 <= fund_all(m, contributions).progress <= fund_all(m, contributions).goal,
        fund_all(m, contributions).goal == m.goal,
        advances(m.status, fund_all(m, contributions).status),
    decreases contributions.len(),
{
    if contributions.len() > 0 {
        let rest = contributions.drop_last();
        assert forall|i: int| 0 <= i < rest.len() implies 0 <= (#[trigger] rest[i]).1 <= u128::MAX by {
            assert(rest[i] == contributions[i]);
        }
        lemma_conservation(m, rest);
        let mid = fund_all(m, rest);
        let (sender, amount) = contributions.last();
        assert(0 <= contributions[contributions.len() - 1].1 <= u128::MAX);
        lemma_fund_step(mid, sender, amount);
        lemma_advances_transitive(m.status, mid.status, mid.fund_step(sender, amount).status);
    }
}

/// Leftover exactness: a contribution that meets or passes the goal leaves
/// the progress exactly at the goal; the net part the sender keeps funded
/// plus the net leftover is the contribution's whole net part, the fee kept
/// plus the fee leftover is its whole fee, and both leftovers are what is
/// owed back.
pub proof fn lemma_leftover_exactness(m: CrowdfundModel, sender: Seq<char>, amount: int)
    requires
        m.wf(),
        0 <= amount <= u128::MAX,
        m.fund_outcome(sender, amount) is Ok,
        m.closes_goal(amount),
    ensures
        m.after_fund(sender, amount).progress == m.goal,
        funded_by(m.after_fund(sender, amount).ledger, sender) - funded_by(m.ledger, sender)
            + m.net_leftover(amount) == m.net_of(amount),
        fees_paid_by(m.after_fund(sender, amount).ledger, sender) - fees_paid_by(m.ledger, sender)
            + m.fee_leftover(amount) == m.fee_on(amount),
        m.fund_outcome(sender, amount) == Ok::<int, crate::crowdfund::FundError>(
            m.net_leftover(amount) + m.fee_leftover(amount)),
{
    let funded: int = funded_by(m.ledger, sender);
    let fees: int = fees_paid_by(m.ledger, sender);
    lemma_put(
        m.ledger,
        sender,
        funded + m.net_of(amount) - m.net_leftover(amount),
        fees + m.fee_on(amount) - m.fee_leftover(amount),
    );
}

} // verus!
