//! The balances that a token keeps in the contract's own state: at most one
//! amount for each holder.

use crate::host::Addr;
use vstd::prelude::*;

verus! {

/// One holder's balance.
#[derive(Debug, PartialEq, Eq, Clone)]
pub struct Balance {
    pub address: Addr,
    pub amount: u128,
}

/// Whether no holder has two entries.
pub open spec fn distinct_holders(entries: Seq<Balance>) -> bool {
    forall|i: int, j: int|
        0 <= i < j < entries.len() ==> entries[i].address@ != entries[j].address@
}

/// Whether `holder` has an entry.
pub open spec fn has_holder(entries: Seq<Balance>, holder: Seq<char>) -> bool {
    exists|i: int| 0 <= i < entries.len() && entries[i].address@ == holder
}

/// A place at which `holder` has an entry, where it has one.
pub open spec fn place_of(entries: Seq<Balance>, holder: Seq<char>) -> int {
    choose|i: int| 0 <= i < entries.len() && entries[i].address@ == holder
}

/// The balances that `entries` records, by holder.
pub open spec fn balances_of(entries: Seq<Balance>) -> Map<Seq<char>, u128> {
    Map::new(
        |holder: Seq<char>| has_holder(entries, holder),
        |holder: Seq<char>| entries[place_of(entries, holder)].amount,
    )
}

proof fn lemma_place(entries: Seq<Balance>, i: int)
    requires
        distinct_holders(entries),
        0 <= i < entries.len(),
    ensures
        has_holder(entries, entries[i].address@),
        place_of(entries, entries[i].address@) == i,
{
    let holder = entries[i].address@;
    let p = place_of(entries, holder);
    assert(0 <= p < entries.len() && entries[p].address@ == holder);
    if p < i {
        assert(entries[p].address@ != entries[i].address@);
    }
    if i < p {
        assert(entries[i].address@ != entries[p].address@);
    }
}

proof fn lemma_new_holder(entries: Seq<Balance>, entry: Balance)
    requires
        distinct_holders(entries),
        !has_holder(entries, entry.address@),
    ensures
        distinct_holders(entries.push(entry)),
        balances_of(entries.push(entry)) == balances_of(entries).insert(
            entry.address@,
            entry.amount,
        ),
{
    let after = entries.push(entry);
    assert(distinct_holders(after)) by {
        assert forall|i: int, j: int| 0 <= i < j < after.len() implies after[i].address@
            != after[j].address@ by {
            if j == entries.len() {
                assert(entries[i].address@ != entry.address@);
            } else {
                assert(entries[i].address@ != entries[j].address@);
            }
        }
    }
    let want = balances_of(entries).insert(entry.address@, entry.amount);
    assert forall|holder: Seq<char>| balances_of(after).dom().contains(holder)
        == want.dom().contains(holder) by {
        if has_holder(after, holder) {
            let p = place_of(after, holder);
            if p < entries.len() {
                assert(entries[p].address@ == holder);
            }
        }
        if has_holder(entries, holder) {
            let p = place_of(entries, holder);
            assert(after[p].address@ == holder);
        }
        if holder == entry.address@ {
            assert(after[entries.len() as int].address@ == holder);
        }
    }
    assert forall|holder: Seq<char>| #[trigger]
        balances_of(after).dom().contains(holder) implies balances_of(after)[holder]
        == want[holder] by {
        let p = place_of(after, holder);
        lemma_place(after, p);
        if p < entries.len() {
            lemma_place(entries, p);
        }
    }
    assert(balances_of(after) =~= want);
}

proof fn lemma_same_holder(entries: Seq<Balance>, i: int, entry: Balance)
    requires
        distinct_holders(entries),
        0 <= i < entries.len(),
        entries[i].address@ == entry.address@,
    ensures
        distinct_holders(entries.update(i, entry)),
        balances_of(entries.update(i, entry)) == balances_of(entries).insert(
            entry.address@,
            entry.amount,
        ),
{
    let after = entries.update(i, entry);
    assert(distinct_holders(after)) by {
        assert forall|a: int, b: int| 0 <= a < b < after.len() implies after[a].address@
            != after[b].address@ by {
            assert(entries[a].address@ != entries[b].address@);
        }
    }
    let want = balances_of(entries).insert(entry.address@, entry.amount);
    assert forall|holder: Seq<char>| balances_of(after).dom().contains(holder)
        == want.dom().contains(holder) by {
        if has_holder(after, holder) {
            let p = place_of(after, holder);
            assert(entries[p].address@ == holder);
        }
        if has_holder(entries, holder) {
            let p = place_of(entries, holder);
            assert(after[p].address@ == holder);
        }
        if holder == entry.address@ {
            assert(after[i].address@ == holder);
        }
    }
    assert forall|holder: Seq<char>| #[trigger]
        balances_of(after).dom().contains(holder) implies balances_of(after)[holder]
        == want[holder] by {
        let p = place_of(after, holder);
        lemma_place(after, p);
        lemma_place(entries, p);
    }
    assert(balances_of(after) =~= want);
}

/// The balances of a token, by holder. A holder that was never given a
/// balance has none, which is not the same as a balance of zero.
#[derive(Debug, PartialEq, Eq)]
pub struct Ledger {
    entries: Vec<Balance>,
}

impl View for Ledger {
    type V = Map<Seq<char>, u128>;

    closed spec fn view(&self) -> Map<Seq<char>, u128> {
        balances_of(self.entries@)
    }
}

impl Ledger {
    #[verifier::type_invariant]
    spec fn well_formed(self) -> bool {
        distinct_holders(self.entries@)
    }

    /// A ledger without balances.
    pub fn new() -> (l: Ledger)
        ensures
            l@ == Map::<Seq<char>, u128>::empty(),
    {
        let l = Ledger { entries: Vec::new() };
        assert(l@ =~= Map::<Seq<char>, u128>::empty());
        l
    }

    fn position(&self, holder: &Addr) -> (r: Option<usize>)
        ensures
            match r {
                Some(i) => i < self.entries@.len() && self.entries@[i as int].address@ == holder@,
                None => !has_holder(self.entries@, holder@),
            },
    {
        let mut i: usize = 0;
        while i < self.entries.len()
            invariant
                i <= self.entries@.len(),
                forall|j: int| 0 <= j < i ==> self.entries@[j].address@ != holder@,
            decreases self.entries@.len() - i,
        {
            if self.entries[i].address.same_as(holder) {
                return Some(i);
            }
            i = i + 1;
        }
        None
    }

    /// The balance of `holder`, if it has one.
    pub fn may_load(&self, holder: &Addr) -> (r: Option<u128>)
        ensures
            r == (if self@.contains_key(holder@) {
                Some(self@[holder@])
            } else {
                None
            }),
    {
        proof {
            use_type_invariant(self);
        }
        match self.position(holder) {
            Some(i) => {
                proof {
                    lemma_place(self.entries@, i as int);
                }
                Some(self.entries[i].amount)
            },
            None => None,
        }
    }

    /// Sets the balance of `holder` to `amount`, whatever it was.
    pub fn save(&mut self, holder: &Addr, amount: u128)
        ensures
            final(self)@ == old(self)@.insert(holder@, amount),
    {
        proof {
            use_type_invariant(&*self);
        }
        let found = self.position(holder);
        let entry = Balance { address: Addr(holder.to_string()), amount };
        let mut entries: Vec<Balance> = Vec::new();
        std::mem::swap(&mut entries, &mut self.entries);
        match found {
            Some(i) => {
                proof {
                    lemma_same_holder(entries@, i as int, entry);
                }
                entries.set(i, entry);
            },
            None => {
                proof {
                    lemma_new_holder(entries@, entry);
                }
                entries.push(entry);
            },
        }
        self.entries = entries;
    }
}

} // verus!
