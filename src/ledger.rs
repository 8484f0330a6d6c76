use vstd::prelude::*;
use crate::category::{kind_of, trade_of, CategoryKind, Currency, TransactionCategory};
use crate::error::{TradeError, ValidationError};
use crate::money::Money;

verus! {

/// An entry of the ledger. It is never changed after it is made, except that
/// it may be marked deleted, after which no calculation sees it. Its trade,
/// if any, is the one its category carries.
#[derive(Clone, Copy, Debug, PartialEq, Eq)]
pub struct Transaction {
    pub id: u128,
    pub account_id: u128,
    pub currency: Currency,
    pub amount: Money,
    pub category: TransactionCategory,
    pub created_at: i64,
    pub deleted_at: Option<i64>,
}

impl Transaction {
    /// The trade this entry belongs to, if any.
    pub fn trade_id(&self) -> (r: Option<u128>)
        ensures
            r == trade_of(self.category),
    {
        self.category.trade_id()
    }
}

/// Whether some entry of `s` has id `id`.
pub open spec fn has_id(s: Seq<Transaction>, id: u128) -> bool {
    exists|i: int| 0 <= i < s.len() && s[i].id == id
}

/// What every ledger holds: distinct ids and amounts that are not negative.
pub open spec fn ledger_wf(s: Seq<Transaction>) -> bool {
    &&& forall|i: int, j: int| 0 <= i < s.len() && 0 <= j < s.len() && i != j ==> s[i].id != s[j].id
    &&& forall|i: int| 0 <= i < s.len() ==> s[i].amount@ >= 0
}

/// The entry that `append` makes from its arguments.
pub open spec fn new_entry(
    id: u128,
    created_at: i64,
    account_id: u128,
    currency: Currency,
    amount: Money,
    category: TransactionCategory,
) -> Transaction {
    Transaction { id, account_id, currency, amount, category, created_at, deleted_at: None }
}

/// Which check of `append` fails on these arguments, if one does.
pub open spec fn append_error(
    s: Seq<Transaction>,
    id: u128,
    trade_id: Option<u128>,
    amount: Money,
    category: TransactionCategory,
) -> Option<ValidationError> {
    if amount@ < 0 {
        Some(ValidationError::NegativeAmount)
    } else if trade_id != trade_of(category) {
        Some(ValidationError::TradeIdMismatch)
    } else if has_id(s, id) {
        Some(ValidationError::DuplicateId)
    } else {
        None
    }
}

/// Which check of `append_all` fails on these entries, if one does: an
/// amount below zero, or an id that is taken or repeated.
pub open spec fn batch_error(s: Seq<Transaction>, new: Seq<Transaction>) -> Option<ValidationError> {
    if exists|k: int| 0 <= k < new.len() && new[k].amount@ < 0 {
        Some(ValidationError::NegativeAmount)
    } else if exists|k: int| 0 <= k < new.len() && has_id(s, #[trigger] new[k].id) {
        Some(ValidationError::DuplicateId)
    } else if exists|k: int, l: int| 0 <= k < l < new.len() && new[k].id == new[l].id {
        Some(ValidationError::DuplicateId)
    } else {
        None
    }
}

/// Which live entries a query selects. Each field that is set must match;
/// `created_from` and `created_until` bound the creation time, both ends
/// included.
#[derive(Clone, Copy, Debug, PartialEq, Eq)]
pub struct TransactionFilter {
    pub account_id: Option<u128>,
    pub currency: Option<Currency>,
    pub kind: Option<CategoryKind>,
    pub trade_id: Option<u128>,
    pub created_from: Option<i64>,
    pub created_until: Option<i64>,
}

pub open spec fn matches_filter(t: Transaction, f: TransactionFilter) -> bool {
    &&& t.deleted_at is None
    &&& f.account_id matches Some(a) ==> t.account_id == a
    &&& f.currency matches Some(c) ==> t.currency == c
    &&& f.kind matches Some(k) ==> kind_of(t.category) == k
    &&& f.trade_id matches Some(id) ==> trade_of(t.category) == Some(id)
    &&& f.created_from matches Some(u) ==> t.created_at >= u
    &&& f.created_until matches Some(u) ==> t.created_at <= u
}

/// The entries of `s` that the filter selects, in order.
pub open spec fn select(s: Seq<Transaction>, f: TransactionFilter) -> Seq<Transaction>
    decreases s.len(),
{
    if s.len() == 0 {
        Seq::empty()
    } else {
        select(s.drop_last(), f) + if matches_filter(s.last(), f) {
            seq![s.last()]
        } else {
            Seq::empty()
        }
    }
}

pub open spec fn account_filter(account_id: u128, currency: Currency, kind: Option<CategoryKind>) -> TransactionFilter {
    TransactionFilter { account_id: Some(account_id), currency: Some(currency), kind, trade_id: None, created_from: None, created_until: None }
}

pub open spec fn trade_filter(trade_id: u128, kind: Option<CategoryKind>) -> TransactionFilter {
    TransactionFilter { account_id: None, currency: None, kind, trade_id: Some(trade_id), created_from: None, created_until: None }
}

impl TransactionFilter {
    pub fn matches(&self, t: &Transaction) -> (r: bool)
        ensures
            r == matches_filter(*t, *self),
    {
        if t.deleted_at.is_some() {
            return false;
        }
        if let Some(a) = self.account_id {
            if t.account_id != a {
                return false;
            }
        }
        if let Some(c) = self.currency {
            if t.currency != c {
                return false;
            }
        }
        if let Some(k) = self.kind {
            if t.category.kind() != k {
                return false;
            }
        }
        if let Some(id) = self.trade_id {
            if t.category.trade_id() != Some(id) {
                return false;
            }
        }
        if let Some(u) = self.created_from {
            if t.created_at < u {
                return false;
            }
        }
        if let Some(u) = self.created_until {
            if t.created_at > u {
                return false;
            }
        }
        true
    }
}

/// The append-only store of transactions, in insertion order.
pub struct Ledger {
    entries: Vec<Transaction>,
}

impl View for Ledger {
    type V = Seq<Transaction>;

    closed spec fn view(&self) -> Seq<Transaction> {
        self.entries@
    }
}

impl Ledger {
    #[verifier::type_invariant]
    spec fn inv(&self) -> bool {
        ledger_wf(self.entries@)
    }

    pub fn new() -> (r: Ledger)
        ensures
            r@ == Seq::<Transaction>::empty(),
    {
        Ledger { entries: Vec::new() }
    }

    /// All entries, deleted ones included, in insertion order.
    pub fn entries(&self) -> (r: &Vec<Transaction>)
        ensures
            r@ == self@,
            ledger_wf(self@),
    {
        proof {
            use_type_invariant(self);
        }
        &self.entries
    }

    pub fn len(&self) -> (r: usize)
        ensures
            r == self@.len(),
    {
        self.entries.len()
    }

    /// Whether an entry has id `id`.
    pub fn contains_id(&self, id: u128) -> (r: bool)
        ensures
            r == has_id(self@, id),
    {
        let mut i: usize = 0;
        while i < self.entries.len()
            invariant
                i <= self.entries@.len(),
                forall|j: int| 0 <= j < i ==> self.entries@[j].id != id,
            decreases self.entries@.len() - i,
        {
            if self.entries[i].id == id {
                return true;
            }
            i = i + 1;
        }
        false
    }

    /// Appends an entry. Fails, and leaves the ledger as it was, when the
    /// amount is negative, when `trade_id` is not the trade the category
    /// carries, or when the id is taken.
    pub fn append(
        &mut self,
        id: u128,
        created_at: i64,
        account_id: u128,
        trade_id: Option<u128>,
        currency: Currency,
        amount: Money,
        category: TransactionCategory,
    ) -> (r: Result<Transaction, TradeError>)
        ensures
            match append_error(old(self)@, id, trade_id, amount, category) {
                Some(e) => r == Err::<Transaction, TradeError>(TradeError::Validation(e))
                    && final(self)@ == old(self)@,
                None => r == Ok::<Transaction, TradeError>(
                    new_entry(id, created_at, account_id, currency, amount, category),
                ) && final(self)@ == old(self)@.push(
                    new_entry(id, created_at, account_id, currency, amount, category),
                ),
            },
    {
        if amount.is_negative() {
            return Err(TradeError::Validation(ValidationError::NegativeAmount));
        }
        if trade_id != category.trade_id() {
            return Err(TradeError::Validation(ValidationError::TradeIdMismatch));
        }
        if self.contains_id(id) {
            return Err(TradeError::Validation(ValidationError::DuplicateId));
        }
        let t = Transaction { id, account_id, currency, amount, category, created_at, deleted_at: None };
        proof {
            use_type_invariant(&*self);
        }
        let mut entries = Vec::new();
        std::mem::swap(&mut entries, &mut self.entries);
        entries.push(t);
        self.entries = entries;
        Ok(t)
    }

    /// Appends several entries, all or none: fails, and leaves the ledger as
    /// it was, when an amount is negative or an id is taken or repeated.
    pub fn append_all(&mut self, new: &Vec<Transaction>) -> (r: Result<(), TradeError>)
        ensures
            match batch_error(old(self)@, new@) {
                Some(e) => r == Err::<(), TradeError>(TradeError::Validation(e)) && final(self)@
                    == old(self)@,
                None => r is Ok && final(self)@ == old(self)@ + new@,
            },
    {
        proof {
            use_type_invariant(&*self);
        }
        let mut k: usize = 0;
        while k < new.len()
            invariant
                k <= new@.len(),
                forall|j: int| 0 <= j < k ==> new@[j].amount@ >= 0,
            decreases new@.len() - k,
        {
            if new[k].amount.is_negative() {
                return Err(TradeError::Validation(ValidationError::NegativeAmount));
            }
            k = k + 1;
        }
        k = 0;
        while k < new.len()
            invariant
                k <= new@.len(),
                forall|j: int| 0 <= j < new@.len() ==> new@[j].amount@ >= 0,
                forall|j: int| 0 <= j < k ==> !has_id(self@, #[trigger] new@[j].id),
                forall|j: int, l: int| 0 <= j < l < k ==> new@[j].id != new@[l].id,
            decreases new@.len() - k,
        {
            if self.contains_id(new[k].id) {
                assert(has_id(self@, new@[k as int].id));
                return Err(TradeError::Validation(ValidationError::DuplicateId));
            }
            let mut l: usize = 0;
            while l < k
                invariant
                    k < new@.len(),
                    l <= k,
                    forall|j: int| 0 <= j < new@.len() ==> new@[j].amount@ >= 0,
                    forall|j: int| 0 <= j < k ==> !has_id(self@, #[trigger] new@[j].id),
                    forall|j: int| 0 <= j < l ==> new@[j].id != new@[k as int].id,
                decreases k - l,
            {
                if new[l].id == new[k].id {
                    assert(0 <= l < k < new@.len() && new@[l as int].id == new@[k as int].id);
                    return Err(TradeError::Validation(ValidationError::DuplicateId));
                }
                l = l + 1;
            }
            k = k + 1;
        }
        let mut entries = Vec::new();
        std::mem::swap(&mut entries, &mut self.entries);
        let ghost before = entries@;
        k = 0;
        while k < new.len()
            invariant
                k <= new@.len(),
                entries@ == before + new@.subrange(0, k as int),
                ledger_wf(before),
                forall|j: int| 0 <= j < new@.len() ==> new@[j].amount@ >= 0,
                forall|j: int| 0 <= j < new@.len() ==> !has_id(before, #[trigger] new@[j].id),
                forall|j: int, l: int| 0 <= j < l < new@.len() ==> new@[j].id != new@[l].id,
                ledger_wf(entries@),
            decreases new@.len() - k,
        {
            let t = new[k];
            proof {
                assert forall|i: int| 0 <= i < entries@.len() implies entries@[i].id != t.id by {
                    if i < before.len() {
                        assert(before[i].id == entries@[i].id);
                    } else {
                        assert(entries@[i] == new@[i - before.len()]);
                    }
                }
            }
            entries.push(t);
            k = k + 1;
            assert(entries@ =~= before + new@.subrange(0, k as int));
        }
        assert(new@.subrange(0, new@.len() as int) =~= new@);
        self.entries = entries;
        Ok(())
    }

    /// The live entries the filter selects, in insertion order.
    pub fn query(&self, f: &TransactionFilter) -> (r: Vec<Transaction>)
        ensures
            r@ == select(self@, *f),
    {
        let mut out: Vec<Transaction> = Vec::new();
        let mut i: usize = 0;
        while i < self.entries.len()
            invariant
                i <= self.entries@.len(),
                out@ == select(self.entries@.subrange(0, i as int), *f),
            decreases self.entries@.len() - i,
        {
            let t = self.entries[i];
            assert(self.entries@.subrange(0, i + 1).drop_last() =~= self.entries@.subrange(0, i as int));
            if f.matches(&t) {
                out.push(t);
            }
            i = i + 1;
        }
        assert(self.entries@.subrange(0, self.entries@.len() as int) =~= self.entries@);
        out
    }

    /// Marks the entry with id `id` deleted at `at`; an entry already marked
    /// keeps its first mark. Fails when no entry has that id.
    pub fn mark_deleted(&mut self, id: u128, at: i64) -> (r: Result<(), TradeError>)
        ensures
            !has_id(old(self)@, id) ==> r == Err::<(), TradeError>(
                TradeError::Validation(ValidationError::UnknownTransaction),
            ) && final(self)@ == old(self)@,
            has_id(old(self)@, id) ==> r is Ok && final(self)@.len() == old(self)@.len() && forall|j: int|
                0 <= j < old(self)@.len() ==> #[trigger] final(self)@[j] == if old(self)@[j].id == id {
                    Transaction {
                        deleted_at: if old(self)@[j].deleted_at is Some {
                            old(self)@[j].deleted_at
                        } else {
                            Some(at)
                        },
                        ..old(self)@[j]
                    }
                } else {
                    old(self)@[j]
                },
    {
        proof {
            use_type_invariant(&*self);
        }
        let mut i: usize = 0;
        while i < self.entries.len()
            invariant
                i <= self.entries@.len(),
                self.entries@ == old(self)@,
                ledger_wf(self.entries@),
                forall|j: int| 0 <= j < i ==> self.entries@[j].id != id,
            decreases self.entries@.len() - i,
        {
            if self.entries[i].id == id {
                let old_t = self.entries[i];
                let t = Transaction {
                    deleted_at: if old_t.deleted_at.is_some() {
                        old_t.deleted_at
                    } else {
                        Some(at)
                    },
                    ..old_t
                };
                let mut entries = Vec::new();
                std::mem::swap(&mut entries, &mut self.entries);
                let ghost before = entries@;
                entries.set(i, t);
                assert(ledger_wf(entries@)) by {
                    assert forall|a: int, b: int|
                        0 <= a < entries@.len() && 0 <= b < entries@.len() && a != b implies entries@[a].id
                        != entries@[b].id by {
                        assert(entries@[a].id == before[a].id);
                        assert(entries@[b].id == before[b].id);
                    }
                }
                self.entries = entries;
                assert forall|j: int| 0 <= j < old(self)@.len() && old(self)@[j].id == id implies j == i by {
                    if j != i {
                        assert(before[j].id != before[i as int].id);
                    }
                }
                return Ok(());
            }
            i = i + 1;
        }
        Err(TradeError::Validation(ValidationError::UnknownTransaction))
    }

    /// Drops the entries past the first `len`, undoing appends that a
    /// transition could not complete.
    pub(crate) fn rollback(&mut self, len: usize)
        requires
            len <= old(self)@.len(),
        ensures
            final(self)@ == old(self)@.subrange(0, len as int),
    {
        proof {
            use_type_invariant(&*self);
        }
        let mut entries = Vec::new();
        std::mem::swap(&mut entries, &mut self.entries);
        entries.truncate(len);
        self.entries = entries;
    }
}

} // verus!
