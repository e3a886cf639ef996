//! The per-item contribution ledger: for each contributor, the net amount
//! funded and the fees paid, one entry per contributor, in the order in
//! which contributors first appeared.
use vstd::prelude::*;

verus! {

/// One contributor's totals, as mathematical values.
pub struct Contribution {
    pub account: Seq<char>,
    pub funded: int,
    pub fees_paid: int,
}

/// One contributor's totals.
#[derive(Debug, PartialEq, Eq)]
pub struct LedgerEntry {
    pub account: String,
    pub funded: u128,
    pub fees_paid: u128,
}

impl View for LedgerEntry {
    type V = Contribution;

    open spec fn view(&self) -> Contribution {
        Contribution { account: self.account@, funded: self.funded as int, fees_paid: self.fees_paid as int }
    }
}

/// Position of `account`'s entry in `l`, or -1 where it has none.
pub open spec fn index_of(l: Seq<Contribution>, account: Seq<char>) -> int
    decreases l.len(),
{
    if l.len() == 0 {
        -1
    } else if l.last().account == account {
        l.len() - 1
    } else {
        index_of(l.drop_last(), account)
    }
}

/// Whether `account` has an entry in `l`.
pub open spec fn has_entry(l: Seq<Contribution>, account: Seq<char>) -> bool {
    index_of(l, account) >= 0
}

/// `account`'s net total in `l` (0 where it has no entry).
pub open spec fn funded_by(l: Seq<Contribution>, account: Seq<char>) -> int {
    if has_entry(l, account) { l[index_of(l, account)].funded } else { 0 }
}

/// `account`'s fee total in `l` (0 where it has no entry).
pub open spec fn fees_paid_by(l: Seq<Contribution>, account: Seq<char>) -> int {
    if has_entry(l, account) { l[index_of(l, account)].fees_paid } else { 0 }
}

/// `l` with `account`'s totals set to `funded` and `fees_paid`: its entry is
/// replaced in place, or a new one is appended.
pub open spec fn put(l: Seq<Contribution>, account: Seq<char>, funded: int, fees_paid: int) -> Seq<Contribution> {
    let c = Contribution { account, funded, fees_paid };
    if has_entry(l, account) { l.update(index_of(l, account), c) } else { l.push(c) }
}

/// No two entries of `l` belong to the same contributor.
pub open spec fn unique_accounts(l: Seq<Contribution>) -> bool {
    forall|i: int, j: int| 0 <= i < j < l.len() ==> l[i].account != l[j].account
}

/// Every total in `l` fits in a `u128`.
pub open spec fn bounded(l: Seq<Contribution>) -> bool {
    forall|i: int| 0 <= i < l.len() ==> 0 <= #[trigger] l[i].funded <= u128::MAX && 0 <= l[i].fees_paid <= u128::MAX
}

/// The sum of the net totals of `l`.
pub open spec fn total_funded(l: Seq<Contribution>) -> int
    decreases l.len(),
{
    if l.len() == 0 { 0 } else { total_funded(l.drop_last()) + l.last().funded }
}

/// The totals that `v` holds.
pub open spec fn entry_views(v: Seq<LedgerEntry>) -> Seq<Contribution> {
    v.map_values(|e: LedgerEntry| e@)
}

/// The character sequences of `v`.
pub open spec fn string_views(v: Seq<String>) -> Seq<Seq<char>> {
    v.map_values(|s: String| s@)
}

/// The values of `v` as integers.
pub open spec fn amounts(v: Seq<u128>) -> Seq<int> {
    v.map_values(|x: u128| x as int)
}

/// The contributors of `l`, in order.
pub open spec fn holders_of(l: Seq<Contribution>) -> Seq<Seq<char>> {
    l.map_values(|c: Contribution| c.account)
}

/// The net totals of `l`, in order.
pub open spec fn shares_of(l: Seq<Contribution>) -> Seq<int> {
    l.map_values(|c: Contribution| c.funded)
}

pub proof fn lemma_index_of(l: Seq<Contribution>, account: Seq<char>)
    ensures
        -1 <= index_of(l, account) < l.len(),
        index_of(l, account) >= 0 ==> l[index_of(l, account)].account == account,
        index_of(l, account) == -1 ==> forall|j: int| 0 <= j < l.len() ==> l[j].account != account,
    decreases l.len(),
{
    if l.len() > 0 {
        lemma_index_of(l.drop_last(), account);
        if l.last().account != account {
            assert forall|j: int| 0 <= j < l.len() && index_of(l, account) == -1 implies l[j].account != account by {
                if j < l.len() - 1 {
                    assert(l.drop_last()[j] == l[j]);
                }
            }
        }
    }
}

pub proof fn lemma_index_of_unique(l: Seq<Contribution>, account: Seq<char>, j: int)
    requires
        unique_accounts(l),
        0 <= j < l.len(),
        l[j].account == account,
    ensures
        index_of(l, account) == j,
    decreases l.len(),
{
    if j < l.len() - 1 {
        assert(l.last().account != account);
        lemma_index_of_unique(l.drop_last(), account, j);
    }
}

proof fn lemma_total_update(l: Seq<Contribution>, i: int, c: Contribution)
    requires
        0 <= i < l.len(),
    ensures
        total_funded(l.update(i, c)) == total_funded(l) - l[i].funded + c.funded,
    decreases l.len(),
{
    let u = l.update(i, c);
    if i < l.len() - 1 {
        assert(u.drop_last() =~= l.drop_last().update(i, c));
        lemma_total_update(l.drop_last(), i, c);
    } else {
        assert(u.drop_last() =~= l.drop_last());
    }
}

/// An entry's net total never exceeds the sum of all of them.
pub proof fn lemma_entry_within_total(l: Seq<Contribution>, i: int)
    requires
        bounded(l),
        0 <= i < l.len(),
    ensures
        l[i].funded <= total_funded(l),
    decreases l.len(),
{
    lemma_total_nonnegative(l.drop_last());
    if i < l.len() - 1 {
        assert(bounded(l.drop_last())) by {
            assert forall|k: int| 0 <= k < l.drop_last().len() implies 0 <= #[trigger] l.drop_last()[k].funded <= u128::MAX
                && 0 <= l.drop_last()[k].fees_paid <= u128::MAX by {
                assert(l.drop_last()[k] == l[k]);
            }
        }
        lemma_entry_within_total(l.drop_last(), i);
    }
}

proof fn lemma_total_nonnegative(l: Seq<Contribution>)
    requires
        forall|i: int| 0 <= i < l.len() ==> 0 <= #[trigger] l[i].funded,
    ensures
        total_funded(l) >= 0,
    decreases l.len(),
{
    if l.len() > 0 {
        assert forall|i: int| 0 <= i < l.drop_last().len() implies 0 <= #[trigger] l.drop_last()[i].funded by {
            assert(l.drop_last()[i] == l[i]);
        }
        lemma_total_nonnegative(l.drop_last());
    }
}

/// Setting one contributor's totals keeps the entries unique and changes the
/// sum of net totals by exactly the change of that contributor's net total.
pub proof fn lemma_put(l: Seq<Contribution>, account: Seq<char>, funded: int, fees_paid: int)
    requires
        unique_accounts(l),
    ensures
        unique_accounts(put(l, account, funded, fees_paid)),
        total_funded(put(l, account, funded, fees_paid)) == total_funded(l) - funded_by(l, account) + funded,
        has_entry(l, account) ==> put(l, account, funded, fees_paid).len() == l.len(),
        !has_entry(l, account) ==> put(l, account, funded, fees_paid).len() == l.len() + 1,
        funded_by(put(l, account, funded, fees_paid), account) == funded,
        fees_paid_by(put(l, account, funded, fees_paid), account) == fees_paid,
{
    lemma_index_of(l, account);
    let p = put(l, account, funded, fees_paid);
    let c = Contribution { account, funded, fees_paid };
    if has_entry(l, account) {
        lemma_total_update(l, index_of(l, account), c);
        lemma_index_of_unique(p, account, index_of(l, account));
    } else {
        assert(p.drop_last() =~= l);
        lemma_index_of_unique(p, account, l.len() as int);
    }
}

pub proof fn lemma_put_bounded(l: Seq<Contribution>, account: Seq<char>, funded: int, fees_paid: int)
    requires
        bounded(l),
        0 <= funded <= u128::MAX,
        0 <= fees_paid <= u128::MAX,
    ensures
        bounded(put(l, account, funded, fees_paid)),
{
    lemma_index_of(l, account);
}

/// A prefix's net totals add up to no more than the whole ledger's.
proof fn lemma_prefix_total(l: Seq<Contribution>, i: int)
    requires
        bounded(l),
        0 <= i <= l.len(),
    ensures
        0 <= total_funded(l.take(i)) <= total_funded(l),
    decreases l.len(),
{
    if i == l.len() {
        assert(l.take(i) =~= l);
        lemma_total_nonnegative(l);
    } else {
        let d = l.drop_last();
        assert(bounded(d)) by {
            assert forall|k: int| 0 <= k < d.len() implies 0 <= #[trigger] d[k].funded <= u128::MAX
                && 0 <= d[k].fees_paid <= u128::MAX by {
                assert(d[k] == l[k]);
            }
        }
        assert(d.take(i) =~= l.take(i));
        lemma_prefix_total(d, i);
        assert(0 <= l[l.len() - 1].funded);
    }
}

impl LedgerEntry {
    /// A copy of this entry.
    pub fn duplicate(&self) -> (r: LedgerEntry)
        ensures
            r == *self,
    {
        LedgerEntry { account: self.account.clone(), funded: self.funded, fees_paid: self.fees_paid }
    }
}

/// The ledger of one item.
pub struct Ledger {
    entries: Vec<LedgerEntry>,
}

impl View for Ledger {
    type V = Seq<Contribution>;

    closed spec fn view(&self) -> Seq<Contribution> {
        entry_views(self.entries@)
    }
}

impl Ledger {
    /// Every total of a ledger fits in a `u128`.
    pub proof fn lemma_bounded(&self)
        ensures
            bounded(self@),
    {
    }

    /// An empty ledger.
    pub fn new() -> (r: Ledger)
        ensures
            r@ == Seq::<Contribution>::empty(),
    {
        let r = Ledger { entries: Vec::new() };
        assert(r@ =~= Seq::<Contribution>::empty());
        r
    }

    /// A ledger holding `entries`, in their order.
    pub fn from_entries(entries: Vec<LedgerEntry>) -> (r: Ledger)
        ensures
            r@ == entry_views(entries@),
    {
        Ledger { entries }
    }

    /// The entries, in order.
    pub fn entries(&self) -> (r: Vec<LedgerEntry>)
        ensures
            entry_views(r@) == self@,
    {
        let mut r: Vec<LedgerEntry> = Vec::new();
        let mut i: usize = 0;
        while i < self.entries.len()
            invariant
                i <= self.entries@.len(),
                self@.len() == self.entries@.len(),
                entry_views(r@) =~= self@.take(i as int),
            decreases self.entries@.len() - i,
        {
            let ghost before = r@;
            r.push(self.entries[i].duplicate());
            assert(entry_views(r@) =~= entry_views(before).push(self.entries@[i as int]@));
            assert(self@.take(i + 1) =~= self@.take(i as int).push(self@[i as int]));
            i = i + 1;
        }
        assert(self@.take(i as int) =~= self@);
        r
    }

    /// Whether no two entries belong to the same contributor.
    pub fn has_unique_accounts(&self) -> (r: bool)
        ensures
            r == unique_accounts(self@),
    {
        let mut i: usize = 0;
        while i < self.entries.len()
            invariant
                i <= self.entries@.len(),
                self@.len() == self.entries@.len(),
                unique_accounts(self@.take(i as int)),
            decreases self.entries@.len() - i,
        {
            let mut j: usize = 0;
            while j < i
                invariant
                    j <= i < self.entries@.len(),
                    self@.len() == self.entries@.len(),
                    forall|k: int| 0 <= k < j ==> self@[k].account != self@[i as int].account,
                decreases i - j,
            {
                if self.entries[j].account == self.entries[i].account {
                    assert(self@[j as int].account == self@[i as int].account);
                    return false;
                }
                j = j + 1;
            }
            assert(unique_accounts(self@.take(i + 1))) by {
                assert forall|a: int, b: int| 0 <= a < b < i + 1 implies
                    (#[trigger] self@.take(i + 1)[a]).account != (#[trigger] self@.take(i + 1)[b]).account by {
                    if b < i {
                        assert(self@.take(i as int)[a] == self@[a]);
                        assert(self@.take(i as int)[b] == self@[b]);
                    }
                }
            }
            i = i + 1;
        }
        assert(self@.take(i as int) =~= self@);
        true
    }

    /// The sum of the net totals, or `None` where it does not fit in a `u128`.
    pub fn total(&self) -> (r: Option<u128>)
        ensures
            match r {
                Some(t) => t == total_funded(self@),
                None => total_funded(self@) > u128::MAX,
            },
    {
        let mut sum: u128 = 0;
        let mut i: usize = 0;
        while i < self.entries.len()
            invariant
                i <= self.entries@.len(),
                self@.len() == self.entries@.len(),
                bounded(self@),
                sum == total_funded(self@.take(i as int)),
            decreases self.entries@.len() - i,
        {
            assert(self@.take(i + 1).drop_last() =~= self@.take(i as int));
            assert(self@[i as int].funded == self.entries@[i as int].funded);
            match sum.checked_add(self.entries[i].funded) {
                Some(v) => sum = v,
                None => {
                    proof {
                        lemma_prefix_total(self@, i + 1);
                    }
                    return None;
                },
            }
            i = i + 1;
        }
        assert(self@.take(i as int) =~= self@);
        Some(sum)
    }

    /// Number of contributors.
    pub fn len(&self) -> (r: usize)
        ensures
            r == self@.len(),
    {
        self.entries.len()
    }

    /// Position of `account`'s entry, if it has one.
    pub fn position(&self, account: &String) -> (r: Option<usize>)
        requires
            unique_accounts(self@),
        ensures
            r is None <==> !has_entry(self@, account@),
            r matches Some(i) ==> i == index_of(self@, account@) && i < self@.len(),
    {
        proof {
            lemma_index_of(self@, account@);
        }
        let mut i: usize = 0;
        while i < self.entries.len()
            invariant
                i <= self.entries@.len(),
                self@.len() == self.entries@.len(),
                unique_accounts(self@),
                forall|j: int| 0 <= j < i ==> self@[j].account != account@,
            decreases self.entries@.len() - i,
        {
            if self.entries[i].account == *account {
                proof {
                    assert(self@[i as int] == self.entries@[i as int]@);
                    lemma_index_of_unique(self@, account@, i as int);
                }
                return Some(i);
            }
            i = i + 1;
        }
        None
    }

    /// `account`'s `(funded, fees_paid)` totals, zero where it has no entry.
    pub fn totals_of(&self, account: &String) -> (r: (u128, u128))
        requires
            unique_accounts(self@),
        ensures
            r.0 == funded_by(self@, account@),
            r.1 == fees_paid_by(self@, account@),
    {
        match self.position(account) {
            Some(i) => (self.entries[i].funded, self.entries[i].fees_paid),
            None => (0, 0),
        }
    }

    /// Sets `account`'s totals, replacing its entry or appending a new one.
    pub fn insert(&mut self, account: String, funded: u128, fees_paid: u128)
        requires
            unique_accounts(old(self)@),
        ensures
            final(self)@ == put(old(self)@, account@, funded as int, fees_paid as int),
    {
        let ghost a = account@;
        let e = LedgerEntry { account, funded, fees_paid };
        match self.position(&e.account) {
            Some(i) => {
                assert(i < self.entries@.len());
                self.entries.set(i, e);
                assert(self@ =~= put(old(self)@, a, funded as int, fees_paid as int));
            },
            None => {
                self.entries.push(e);
                assert(self@ =~= put(old(self)@, a, funded as int, fees_paid as int));
            },
        }
    }

    /// The contributors, in order.
    pub fn holders(&self) -> (r: Vec<String>)
        ensures
            string_views(r@) == holders_of(self@),
    {
        let mut r: Vec<String> = Vec::new();
        let mut i: usize = 0;
        while i < self.entries.len()
            invariant
                i <= self.entries@.len(),
                self@.len() == self.entries@.len(),
                string_views(r@) =~= holders_of(self@).take(i as int),
            decreases self.entries@.len() - i,
        {
            let ghost before = r@;
            r.push(self.entries[i].account.clone());
            assert(r@ == before.push(self.entries@[i as int].account));
            assert(holders_of(self@)[i as int] == self.entries@[i as int].account@);
            assert(string_views(r@) =~= string_views(before).push(self.entries@[i as int].account@));
            assert(holders_of(self@).take(i + 1) =~= holders_of(self@).take(i as int).push(holders_of(self@)[i as int]));
            i = i + 1;
            assert(string_views(r@) =~= holders_of(self@).take(i as int));
        }
        assert(holders_of(self@).take(i as int) =~= holders_of(self@));
        r
    }

    /// The net totals, in the order of `holders`.
    pub fn shares(&self) -> (r: Vec<u128>)
        ensures
            amounts(r@) == shares_of(self@),
    {
        let mut r: Vec<u128> = Vec::new();
        let mut i: usize = 0;
        while i < self.entries.len()
            invariant
                i <= self.entries@.len(),
                self@.len() == self.entries@.len(),
                amounts(r@) =~= shares_of(self@).take(i as int),
            decreases self.entries@.len() - i,
        {
            let ghost before = r@;
            r.push(self.entries[i].funded);
            assert(r@ == before.push(self.entries@[i as int].funded));
            assert(shares_of(self@)[i as int] == self.entries@[i as int].funded as int);
            assert(amounts(r@) =~= amounts(before).push(self.entries@[i as int].funded as int));
            assert(shares_of(self@).take(i + 1) =~= shares_of(self@).take(i as int).push(shares_of(self@)[i as int]));
            i = i + 1;
            assert(amounts(r@) =~= shares_of(self@).take(i as int));
        }
        assert(shares_of(self@).take(i as int) =~= shares_of(self@));
        r
    }
}

} // verus!
