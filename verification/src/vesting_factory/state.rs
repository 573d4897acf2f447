//! What the factory keeps between requests.

use vstd::prelude::*;

verus! {

/// The code from which the factory makes ledgers.
#[derive(Clone, Debug, PartialEq)]
pub struct Config {
    pub vesting_contract_code_id: u64,
}

/// Which ledger belongs to which owner. No owner has two.
#[derive(Debug, PartialEq)]
pub struct Registry {
    entries: Vec<(String, String)>,
}

/// A factory: everything that outlives a request.
#[derive(Debug, PartialEq)]
pub struct LedgerFactory {
    pub config: Config,
    /// The owner for whom a ledger is being created, from the request until
    /// the result arrives.
    pub pending_owner: Option<String>,
    /// The ledgers that were created, by owner.
    pub vesting_contracts: Registry,
}

/// A factory as plain values.
pub ghost struct FactoryModel {
    pub code_id: u64,
    pub pending_owner: Option<Seq<char>>,
    pub contracts: Map<Seq<char>, Seq<char>>,
}

impl View for LedgerFactory {
    type V = FactoryModel;

    open spec fn view(&self) -> FactoryModel {
        FactoryModel {
            code_id: self.config.vesting_contract_code_id,
            pending_owner: self.pending_owner.deep_view(),
            contracts: self.vesting_contracts@,
        }
    }
}

/// Whether the `i`-th entry is the one of `owner`.
pub open spec fn is_entry_of(entries: Seq<(String, String)>, owner: Seq<char>, i: int) -> bool {
    0 <= i < entries.len() && entries[i].0@ == owner
}

/// No two entries are of the same owner.
pub open spec fn distinct_owners(entries: Seq<(String, String)>) -> bool {
    forall|i: int, j: int|
        0 <= i < entries.len() && 0 <= j < entries.len() && (#[trigger] entries[i]).0@ == (
        #[trigger] entries[j]).0@ ==> i == j
}

/// The entries as a map from owners to ledgers.
pub open spec fn entries_map(entries: Seq<(String, String)>) -> Map<Seq<char>, Seq<char>> {
    Map::new(
        |owner: Seq<char>| exists|i: int| is_entry_of(entries, owner, i),
        |owner: Seq<char>| entries[choose|i: int| is_entry_of(entries, owner, i)].1@,
    )
}

impl Registry {
    #[verifier::type_invariant]
    spec fn distinct(&self) -> bool {
        distinct_owners(self.entries@)
    }

    /// The registry as a map from owners to ledgers.
    pub closed spec fn view(&self) -> Map<Seq<char>, Seq<char>> {
        entries_map(self.entries@)
    }

    /// A registry without entries.
    pub fn new() -> (r: Registry)
        ensures
            r@ == Map::<Seq<char>, Seq<char>>::empty(),
    {
        let r = Registry { entries: Vec::new() };
        assert(r@ =~= Map::<Seq<char>, Seq<char>>::empty());
        r
    }

    /// How many owners have a ledger.
    pub fn len(&self) -> (n: usize)
        ensures
            n == self@.len(),
            self@.dom().finite(),
    {
        proof {
            use_type_invariant(self);
            lemma_entries_map_len(self.entries@);
        }
        self.entries.len()
    }

    /// The position of the entry of `owner`, where there is one.
    fn position(&self, owner: &String) -> (r: Option<usize>)
        ensures
            match r {
                Some(i) => is_entry_of(self.entries@, owner@, i as int),
                None => forall|i: int| !is_entry_of(self.entries@, owner@, i),
            },
    {
        let mut i: usize = 0;
        while i < self.entries.len()
            invariant
                i <= self.entries.len(),
                forall|j: int| 0 <= j < i ==> !is_entry_of(self.entries@, owner@, j),
            decreases self.entries.len() - i,
        {
            if self.entries[i].0 == *owner {
                return Some(i);
            }
            i = i + 1;
        }
        None
    }

    /// The ledger of `owner`, where they have one.
    pub fn get(&self, owner: &String) -> (r: Option<&String>)
        ensures
            match r {
                Some(ledger) => self@.dom().contains(owner@) && ledger@ == self@[owner@],
                None => !self@.dom().contains(owner@),
            },
    {
        proof {
            use_type_invariant(self);
        }
        match self.position(owner) {
            Some(i) => {
                assert(is_entry_of(self.entries@, owner@, i as int));
                Some(&self.entries[i].1)
            },
            None => None,
        }
    }

    /// Whether `owner` has a ledger.
    pub fn contains(&self, owner: &String) -> (r: bool)
        ensures
            r == self@.dom().contains(owner@),
    {
        self.get(owner).is_some()
    }

    /// Records `ledger` as the ledger of `owner`, in place of the one
    /// recorded before where there was one.
    pub fn insert(&mut self, owner: String, ledger: String)
        ensures
            final(self)@ == old(self)@.insert(owner@, ledger@),
    {
        proof {
            use_type_invariant(&*self);
        }
        let ghost before = self.entries@;
        let position = self.position(&owner);
        let mut entries: Vec<(String, String)> = Vec::new();
        core::mem::swap(&mut self.entries, &mut entries);
        match position {
            Some(i) => {
                entries.set(i, (owner, ledger));
                proof {
                    let after = entries@;
                    assert forall|k: int, owner: Seq<char>|
                        is_entry_of(after, owner, k) <==> is_entry_of(before, owner, k) by {}
                    assert(distinct_owners(after)) by {
                        assert forall|a: int, b: int|
                            0 <= a < after.len() && 0 <= b < after.len() && (#[trigger] after[a]).0@
                                == (#[trigger] after[b]).0@ implies a == b by {
                            assert(is_entry_of(before, before[a].0@, a));
                            assert(is_entry_of(before, before[b].0@, b));
                        }
                    }
                }
            },
            None => {
                entries.push((owner, ledger));
                proof {
                    let after = entries@;
                    assert forall|k: int, owner: Seq<char>| is_entry_of(before, owner, k) implies is_entry_of(
                        after,
                        owner,
                        k,
                    ) by {}
                    assert(distinct_owners(after)) by {
                        assert forall|a: int, b: int|
                            0 <= a < after.len() && 0 <= b < after.len() && (#[trigger] after[a]).0@
                                == (#[trigger] after[b]).0@ implies a == b by {
                            if a < before.len() {
                                assert(is_entry_of(before, before[a].0@, a));
                            }
                            if b < before.len() {
                                assert(is_entry_of(before, before[b].0@, b));
                            }
                        }
                    }
                }
            },
        }
        core::mem::swap(&mut self.entries, &mut entries);
        proof {
            let after = self.entries@;
            assert forall|i: int| 0 <= i < before.len() && (#[trigger] before[i]).0@ != owner@ implies exists|
                j: int,
            | 0 <= j < after.len() && #[trigger] after[j] == before[i] by {
                assert(after[i] == before[i]);
            }
            assert forall|j: int| 0 <= j < after.len() && (#[trigger] after[j]).0@ != owner@ implies exists|
                i: int,
            | 0 <= i < before.len() && #[trigger] before[i] == after[j] by {
                assert(before[j] == after[j]);
            }
            match position {
                Some(i) => {
                    assert(is_entry_of(after, owner@, i as int) && after[i as int].1@ == ledger@);
                },
                None => {
                    assert(is_entry_of(after, owner@, before.len() as int) && after[before.len() as int].1@
                        == ledger@);
                },
            }
            lemma_entries_map_insert(before, after, owner@, ledger@);
        }
    }
}

/// Among entries of distinct owners, the entry of an owner is the one that
/// the map goes by.
pub proof fn lemma_entries_map_at(entries: Seq<(String, String)>, i: int)
    requires
        distinct_owners(entries),
        0 <= i < entries.len(),
    ensures
        entries_map(entries).dom().contains(entries[i].0@),
        entries_map(entries)[entries[i].0@] == entries[i].1@,
{
    let owner = entries[i].0@;
    assert(is_entry_of(entries, owner, i));
    let j = choose|j: int| is_entry_of(entries, owner, j);
    assert(entries[j].0@ == entries[i].0@);
}

/// Entries that hold what other entries hold, but for the one of `owner`,
/// which now names `ledger`, make the map of the others with `owner` set to
/// `ledger`.
pub proof fn lemma_entries_map_insert(
    before: Seq<(String, String)>,
    after: Seq<(String, String)>,
    owner: Seq<char>,
    ledger: Seq<char>,
)
    requires
        distinct_owners(before),
        distinct_owners(after),
        exists|i: int| is_entry_of(after, owner, i) && after[i].1@ == ledger,
        forall|i: int|
            0 <= i < before.len() && (#[trigger] before[i]).0@ != owner ==> exists|j: int|
                0 <= j < after.len() && #[trigger] after[j] == before[i],
        forall|j: int|
            0 <= j < after.len() && (#[trigger] after[j]).0@ != owner ==> exists|i: int|
                0 <= i < before.len() && #[trigger] before[i] == after[j],
    ensures
        entries_map(after) == entries_map(before).insert(owner, ledger),
{
    let m1 = entries_map(after);
    let m2 = entries_map(before).insert(owner, ledger);
    assert forall|k: Seq<char>| m1.dom().contains(k) <==> m2.dom().contains(k) by {
        if m1.dom().contains(k) && k != owner {
            let j = choose|j: int| is_entry_of(after, k, j);
            let i = choose|i: int| 0 <= i < before.len() && before[i] == after[j];
            assert(is_entry_of(before, k, i));
        }
        if m2.dom().contains(k) && k != owner {
            let i = choose|i: int| is_entry_of(before, k, i);
            let j = choose|j: int| 0 <= j < after.len() && after[j] == before[i];
            assert(is_entry_of(after, k, j));
        }
        if k == owner {
            let i = choose|i: int| is_entry_of(after, owner, i) && after[i].1@ == ledger;
            assert(is_entry_of(after, k, i));
        }
    }
    assert forall|k: Seq<char>| m1.dom().contains(k) implies m1[k] == m2[k] by {
        let j = choose|j: int| is_entry_of(after, k, j);
        lemma_entries_map_at(after, j);
        if k == owner {
            let i = choose|i: int| is_entry_of(after, owner, i) && after[i].1@ == ledger;
            assert(after[i].0@ == after[j].0@);
        } else {
            let i = choose|i: int| 0 <= i < before.len() && before[i] == after[j];
            lemma_entries_map_at(before, i);
        }
    }
    assert(m1 =~= m2);
}

/// Entries of distinct owners make a map of as many owners.
pub proof fn lemma_entries_map_len(entries: Seq<(String, String)>)
    requires
        distinct_owners(entries),
    ensures
        entries_map(entries).dom().finite(),
        entries_map(entries).len() == entries.len(),
    decreases entries.len(),
{
    let m = entries_map(entries);
    if entries.len() == 0 {
        assert(m =~= Map::<Seq<char>, Seq<char>>::empty());
    } else {
        let rest = entries.drop_last();
        let last = entries.last();
        assert(distinct_owners(rest)) by {
            assert forall|a: int, b: int|
                0 <= a < rest.len() && 0 <= b < rest.len() && (#[trigger] rest[a]).0@ == (
                #[trigger] rest[b]).0@ implies a == b by {
                assert(entries[a].0@ == entries[b].0@);
            }
        }
        lemma_entries_map_len(rest);
        let smaller = entries_map(rest);
        assert(!smaller.dom().contains(last.0@)) by {
            if smaller.dom().contains(last.0@) {
                let i = choose|i: int| is_entry_of(rest, last.0@, i);
                assert(entries[i].0@ == entries[entries.len() - 1].0@);
            }
        }
        assert(m.dom() =~= smaller.dom().insert(last.0@)) by {
            assert forall|k: Seq<char>| m.dom().contains(k) <==> smaller.dom().insert(
                last.0@,
            ).contains(k) by {
                if m.dom().contains(k) && k != last.0@ {
                    let i = choose|i: int| is_entry_of(entries, k, i);
                    assert(is_entry_of(rest, k, i));
                }
                if smaller.dom().contains(k) {
                    let i = choose|i: int| is_entry_of(rest, k, i);
                    assert(is_entry_of(entries, k, i));
                }
                if k == last.0@ {
                    assert(is_entry_of(entries, k, entries.len() - 1));
                }
            }
        }
    }
}

} // verus!
