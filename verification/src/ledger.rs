//! Address-keyed share ledgers.
//!
//! The pool keeps two of these: minted leveraged shares and
//! liquidity-provider shares. A ledger is a list of address/share pairs with
//! unique addresses; an address that has never deposited is equivalent to
//! one whose share is zero (entries are never physically deleted). The sum
//! of all shares is tracked against the pool-wide aggregate.
use vstd::prelude::*;
use crate::addr::Addr;

verus! {

/// One address's entry in a ledger.
pub struct LedgerEntry {
    pub addr: Addr,
    pub share: u128,
}

/// The share the ledger holds for address `a`: the share of the first entry
/// with that address, or zero when there is none.
pub open spec fn spec_share_of(s: Seq<LedgerEntry>, a: Seq<u8>) -> u128
    decreases s.len(),
{
    if s.len() == 0 {
        0
    } else if s.first().addr@ == a {
        s.first().share
    } else {
        spec_share_of(s.drop_first(), a)
    }
}

/// The sum of all shares in the ledger.
pub open spec fn spec_total(s: Seq<LedgerEntry>) -> int
    decreases s.len(),
{
    if s.len() == 0 {
        0
    } else {
        s.first().share + spec_total(s.drop_first())
    }
}

/// No two entries name the same address.
pub open spec fn unique_addrs(s: Seq<LedgerEntry>) -> bool {
    forall|i: int, j: int| 0 <= i < j < s.len() ==> s[i].addr@ != s[j].addr@
}

/// Any one share is bounded by the sum of all shares.
pub proof fn lemma_share_le_total(s: Seq<LedgerEntry>, a: Seq<u8>)
    ensures
        0 <= spec_share_of(s, a) <= spec_total(s),
    decreases s.len(),
{
    if s.len() > 0 {
        lemma_share_le_total(s.drop_first(), a);
    }
}

/// An address no entry names has share zero.
pub proof fn lemma_share_of_absent(s: Seq<LedgerEntry>, a: Seq<u8>)
    requires
        forall|j: int| 0 <= j < s.len() ==> s[j].addr@ != a,
    ensures
        spec_share_of(s, a) == 0,
    decreases s.len(),
{
    if s.len() > 0 {
        assert(forall|j: int| 0 <= j < s.drop_first().len() ==> s.drop_first()[j] == s[j + 1]);
        lemma_share_of_absent(s.drop_first(), a);
    }
}

/// With unique addresses, the entry at `i` determines the share of its
/// address.
pub proof fn lemma_share_of_at(s: Seq<LedgerEntry>, a: Seq<u8>, i: int)
    requires
        unique_addrs(s),
        0 <= i < s.len(),
        s[i].addr@ == a,
    ensures
        spec_share_of(s, a) == s[i].share,
    decreases i,
{
    if i == 0 {
    } else {
        assert(s[0].addr@ != a);
        assert(unique_addrs(s.drop_first())) by {
            assert(forall|x: int, y: int|
                0 <= x < y < s.drop_first().len() ==> s.drop_first()[x] == s[x + 1]
                    && s.drop_first()[y] == s[y + 1]);
        }
        assert(s.drop_first()[i - 1] == s[i]);
        lemma_share_of_at(s.drop_first(), a, i - 1);
    }
}

/// Replacing the entry at `i` with one for the same address changes the sum
/// by the difference of the shares.
pub proof fn lemma_total_update(s: Seq<LedgerEntry>, i: int, e: LedgerEntry)
    requires
        0 <= i < s.len(),
    ensures
        spec_total(s.update(i, e)) == spec_total(s) - s[i].share + e.share,
    decreases i,
{
    if i == 0 {
        assert(s.update(0, e).drop_first() =~= s.drop_first());
    } else {
        assert(s.update(i, e).drop_first() =~= s.drop_first().update(i - 1, e));
        lemma_total_update(s.drop_first(), i - 1, e);
    }
}

/// Replacing the entry at `i` with one for the same address changes that
/// address's share and no other.
pub proof fn lemma_share_of_update(s: Seq<LedgerEntry>, i: int, e: LedgerEntry, b: Seq<u8>)
    requires
        unique_addrs(s),
        0 <= i < s.len(),
        e.addr@ == s[i].addr@,
    ensures
        spec_share_of(s.update(i, e), b) == if b == s[i].addr@ {
            e.share
        } else {
            spec_share_of(s, b)
        },
        unique_addrs(s.update(i, e)),
    decreases i,
{
    assert(unique_addrs(s.update(i, e))) by {
        assert(forall|x: int| 0 <= x < s.len() && x != i ==> s.update(i, e)[x] == s[x]);
    }
    if i == 0 {
        assert(s.update(0, e).drop_first() =~= s.drop_first());
        if b != s[0].addr@ {
        }
    } else {
        assert(unique_addrs(s.drop_first())) by {
            assert(forall|x: int, y: int|
                0 <= x < y < s.drop_first().len() ==> s.drop_first()[x] == s[x + 1]
                    && s.drop_first()[y] == s[y + 1]);
        }
        assert(s.update(i, e).drop_first() =~= s.drop_first().update(i - 1, e));
        assert(s.drop_first()[i - 1] == s[i]);
        lemma_share_of_update(s.drop_first(), i - 1, e, b);
        if b == s[i].addr@ {
            assert(s[0].addr@ != s[i].addr@);
        }
    }
}

/// Appending an entry adds its share to the sum.
pub proof fn lemma_total_push(s: Seq<LedgerEntry>, e: LedgerEntry)
    ensures
        spec_total(s.push(e)) == spec_total(s) + e.share,
    decreases s.len(),
{
    if s.len() == 0 {
        assert(s.push(e).first() == e);
        assert(s.push(e).drop_first() =~= Seq::<LedgerEntry>::empty());
        assert(spec_total(Seq::<LedgerEntry>::empty()) == 0);
    } else {
        assert(s.push(e).first() == s.first());
        assert(s.push(e).drop_first() =~= s.drop_first().push(e));
        lemma_total_push(s.drop_first(), e);
    }
}

/// Appending an entry for a fresh address sets that address's share and
/// changes no other.
pub proof fn lemma_share_of_push(s: Seq<LedgerEntry>, e: LedgerEntry, b: Seq<u8>)
    requires
        forall|j: int| 0 <= j < s.len() ==> s[j].addr@ != e.addr@,
    ensures
        spec_share_of(s.push(e), b) == if b == e.addr@ {
            e.share
        } else {
            spec_share_of(s, b)
        },
        unique_addrs(s) ==> unique_addrs(s.push(e)),
    decreases s.len(),
{
    if s.len() == 0 {
        assert(s.push(e).first() == e);
        assert(s.push(e).drop_first() =~= Seq::<LedgerEntry>::empty());
        assert(spec_share_of(Seq::<LedgerEntry>::empty(), b) == 0);
    } else {
        assert(s.push(e).first() == s.first());
        assert(s.push(e).drop_first() =~= s.drop_first().push(e));
        assert(forall|j: int| 0 <= j < s.drop_first().len() ==> s.drop_first()[j] == s[j + 1]);
        lemma_share_of_push(s.drop_first(), e, b);
        if unique_addrs(s) {
            assert(forall|x: int| 0 <= x < s.len() ==> s.push(e)[x] == s[x]);
            assert(s.push(e)[s.len() as int] == e);
        }
    }
}

/// The sum splits at any cut point.
pub proof fn lemma_total_split(s: Seq<LedgerEntry>, i: int)
    requires
        0 <= i <= s.len(),
    ensures
        spec_total(s) == spec_total(s.take(i)) + spec_total(s.skip(i)),
    decreases i,
{
    if i == 0 {
        assert(s.take(0) =~= Seq::<LedgerEntry>::empty());
        assert(s.skip(0) =~= s);
        assert(spec_total(Seq::<LedgerEntry>::empty()) == 0);
    } else {
        assert(s.take(i).first() == s.first());
        assert(s.take(i).drop_first() =~= s.drop_first().take(i - 1));
        assert(s.skip(i) =~= s.drop_first().skip(i - 1));
        lemma_total_split(s.drop_first(), i - 1);
    }
}

/// A per-address share ledger with unique addresses.
pub struct Ledger {
    entries: Vec<LedgerEntry>,
}

impl View for Ledger {
    type V = Seq<LedgerEntry>;

    closed spec fn view(&self) -> Seq<LedgerEntry> {
        self.entries@
    }
}

impl Ledger {
    /// Well-formed: no address is listed twice.
    pub open spec fn wf(&self) -> bool {
        unique_addrs(self@)
    }

    /// The share held for `a`.
    pub open spec fn share_of(&self, a: Seq<u8>) -> u128 {
        spec_share_of(self@, a)
    }

    /// The sum of all shares.
    pub open spec fn total(&self) -> int {
        spec_total(self@)
    }

    /// An empty ledger: every address holds zero.
    pub fn new() -> (l: Ledger)
        ensures
            l.wf(),
            l@ == Seq::<LedgerEntry>::empty(),
            l.total() == 0,
            forall|a: Seq<u8>| l.share_of(a) == 0,
    {
        let l = Ledger { entries: Vec::new() };
        proof {
            assert(l@ =~= Seq::<LedgerEntry>::empty());
        }
        l
    }

    /// Wrap a list of address/share entries as a ledger; refused when an
    /// address is listed twice. The boundary layer rebuilds ledgers from its
    /// persisted records through this check.
    pub fn from_entries(entries: Vec<LedgerEntry>) -> (r: Option<Ledger>)
        ensures
            (r is Some) == unique_addrs(entries@),
            r matches Some(l) ==> l.wf() && l@ == entries@,
    {
        let l = Ledger { entries };
        if l.is_unique() {
            Some(l)
        } else {
            None
        }
    }

    /// The entries of the ledger, in insertion order.
    pub fn entries(&self) -> (r: &Vec<LedgerEntry>)
        ensures
            r@ == self@,
    {
        &self.entries
    }

    /// Whether no address is listed twice.
    pub fn is_unique(&self) -> (r: bool)
        ensures
            r == unique_addrs(self@),
    {
        let n = self.entries.len();
        let mut i: usize = 0;
        while i < n
            invariant
                n == self@.len(),
                i <= n,
                forall|x: int, y: int| 0 <= x < y < n && x < i ==> self@[x].addr@ != self@[y].addr@,
            decreases n - i,
        {
            let mut j: usize = i + 1;
            while j < n
                invariant
                    n == self@.len(),
                    i < j <= n,
                    forall|y: int| i < y < j ==> self@[i as int].addr@ != self@[y].addr@,
                decreases n - j,
            {
                if self.entries[i].addr == self.entries[j].addr {
                    return false;
                }
                j = j + 1;
            }
            i = i + 1;
        }
        true
    }

    /// The sum of all shares, or `None` where it exceeds the 128-bit range.
    pub fn total_shares(&self) -> (r: Option<u128>)
        ensures
            r matches Some(t) ==> t == spec_total(self@),
            r is None ==> spec_total(self@) > u128::MAX,
    {
        let n = self.entries.len();
        let mut acc: u128 = 0;
        let mut i: usize = 0;
        while i < n
            invariant
                n == self@.len(),
                i <= n,
                acc == spec_total(self@.take(i as int)),
            decreases n - i,
        {
            proof {
                assert(self@.take(i + 1) =~= self@.take(i as int).push(self@[i as int]));
                lemma_total_push(self@.take(i as int), self@[i as int]);
            }
            acc = match acc.checked_add(self.entries[i].share) {
                Some(v) => v,
                None => {
                    proof {
                        lemma_total_split(self@, i + 1);
                        lemma_share_le_total(self@.skip(i + 1), Seq::<u8>::empty());
                    }
                    return None;
                },
            };
            i = i + 1;
        }
        proof {
            assert(self@.take(n as int) =~= self@);
        }
        Some(acc)
    }

    /// The index of the entry for `addr`, if there is one.
    fn position(&self, addr: &Addr) -> (r: Option<usize>)
        ensures
            r matches Some(i) ==> i < self@.len() && self@[i as int].addr@ == addr@,
            r is None ==> forall|j: int| 0 <= j < self@.len() ==> self@[j].addr@ != addr@,
    {
        let n = self.entries.len();
        let mut i: usize = 0;
        while i < n
            invariant
                n == self@.len(),
                i <= n,
                forall|j: int| 0 <= j < i ==> self@[j].addr@ != addr@,
            decreases n - i,
        {
            if self.entries[i].addr == *addr {
                return Some(i);
            }
            i = i + 1;
        }
        None
    }

    /// Look a share up; an address with no entry holds zero.
    pub fn get(&self, addr: &Addr) -> (share: u128)
        requires
            self.wf(),
        ensures
            share == self.share_of(addr@),
    {
        match self.position(addr) {
            Some(i) => {
                proof {
                    lemma_share_of_at(self@, addr@, i as int);
                }
                self.entries[i].share
            },
            None => {
                proof {
                    lemma_share_of_absent(self@, addr@);
                }
                0
            },
        }
    }

    /// Add `amount` to the share held for `addr`, creating the entry on
    /// first use. Returns the new share.
    pub fn credit(&mut self, addr: &Addr, amount: u128) -> (new_share: u128)
        requires
            old(self).wf(),
            spec_total(old(self)@) + amount <= u128::MAX,
        ensures
            final(self).wf(),
            new_share == old(self).share_of(addr@) + amount,
            final(self).share_of(addr@) == new_share,
            forall|b: Seq<u8>| b != addr@ ==> final(self).share_of(b) == old(self).share_of(b),
            final(self).total() == old(self).total() + amount,
    {
        proof {
            lemma_share_le_total(self@, addr@);
        }
        match self.position(addr) {
            Some(i) => {
                proof {
                    lemma_share_of_at(self@, addr@, i as int);
                }
                let new_val = self.entries[i].share + amount;
                let updated = LedgerEntry { addr: addr.clone(), share: new_val };
                let ghost s = self@;
                self.entries[i] = updated;
                proof {
                    lemma_total_update(s, i as int, updated);
                    assert forall|b: Seq<u8>| true implies final(self).share_of(b) == (if b == addr@ {
                        updated.share
                    } else {
                        spec_share_of(s, b)
                    }) by {
                        lemma_share_of_update(s, i as int, updated, b);
                    }
                    lemma_share_of_update(s, i as int, updated, addr@);
                }
                new_val
            },
            None => {
                proof {
                    lemma_share_of_absent(self@, addr@);
                }
                let fresh = LedgerEntry { addr: addr.clone(), share: amount };
                let ghost s = self@;
                self.entries.push(fresh);
                proof {
                    lemma_total_push(s, fresh);
                    assert forall|b: Seq<u8>| true implies final(self).share_of(b) == (if b == addr@ {
                        fresh.share
                    } else {
                        spec_share_of(s, b)
                    }) by {
                        lemma_share_of_push(s, fresh, b);
                    }
                    lemma_share_of_push(s, fresh, addr@);
                }
                amount
            },
        }
    }

    /// Subtract `amount` from the share held for `addr`. Returns the new
    /// share.
    pub fn debit(&mut self, addr: &Addr, amount: u128) -> (new_share: u128)
        requires
            old(self).wf(),
            amount <= old(self).share_of(addr@),
        ensures
            final(self).wf(),
            new_share == old(self).share_of(addr@) - amount,
            final(self).share_of(addr@) == new_share,
            forall|b: Seq<u8>| b != addr@ ==> final(self).share_of(b) == old(self).share_of(b),
            final(self).total() == old(self).total() - amount,
    {
        match self.position(addr) {
            Some(i) => {
                proof {
                    lemma_share_of_at(self@, addr@, i as int);
                }
                let new_val = self.entries[i].share - amount;
                let updated = LedgerEntry { addr: addr.clone(), share: new_val };
                let ghost s = self@;
                self.entries[i] = updated;
                proof {
                    lemma_total_update(s, i as int, updated);
                    assert forall|b: Seq<u8>| true implies final(self).share_of(b) == (if b == addr@ {
                        updated.share
                    } else {
                        spec_share_of(s, b)
                    }) by {
                        lemma_share_of_update(s, i as int, updated, b);
                    }
                    lemma_share_of_update(s, i as int, updated, addr@);
                }
                new_val
            },
            None => {
                proof {
                    lemma_share_of_absent(self@, addr@);
                }
                0
            },
        }
    }
}

} // verus!
