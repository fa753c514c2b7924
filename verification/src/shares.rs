//! The ledger of guarantee shares that the homa mock keeps per
//! (account, relay chain account) pair.

use vstd::prelude::*;

verus! {

/// The pair that a share is recorded under: the account that guarantees and
/// the relay chain account of the validator it guarantees.
pub type ShareKey = (u128, u128);

/// The share amounts of a ledger, by key.
pub type ShareMap = Map<ShareKey, u128>;

/// The key of a stored entry.
pub open spec fn entry_key(e: (u128, u128, u128)) -> ShareKey {
    (e.0, e.1)
}

/// The entries are free of repeated keys and hold exactly the map `model`.
spec fn entries_hold(e: Seq<(u128, u128, u128)>, model: ShareMap) -> bool {
    &&& forall|i: int, j: int|
        0 <= i < j < e.len() ==> #[trigger] entry_key(e[i]) != #[trigger] entry_key(e[j])
    &&& forall|i: int|
        0 <= i < e.len() ==> #[trigger] model.contains_key(entry_key(e[i])) && model[entry_key(
            e[i],
        )] == e[i].2
    &&& forall|k: ShareKey| #[trigger]
        model.contains_key(k) ==> exists|i: int| 0 <= i < e.len() && #[trigger] entry_key(e[i]) == k
}

/// A map from (account, relay chain account) to a balance. Each key occurs at
/// most once among the entries.
pub struct Shares {
    entries: Vec<(u128, u128, u128)>,
    model: Ghost<ShareMap>,
}

impl View for Shares {
    type V = ShareMap;

    closed spec fn view(&self) -> ShareMap {
        self.model@
    }
}

/// The position of the entry under `key` in `entries`, if there is one.
fn find(entries: &Vec<(u128, u128, u128)>, Ghost(model): Ghost<ShareMap>, key: ShareKey) -> (r:
    Option<usize>)
    requires
        entries_hold(entries@, model),
    ensures
        match r {
            Some(i) => i < entries@.len() && entry_key(entries@[i as int]) == key,
            None => !model.contains_key(key),
        },
{
    let n = entries.len();
    let mut i: usize = 0;
    while i < n
        invariant
            n == entries@.len(),
            i <= n,
            entries_hold(entries@, model),
            forall|j: int| 0 <= j < i ==> #[trigger] entry_key(entries@[j]) != key,
        decreases n - i,
    {
        let e = entries[i];
        if e.0 == key.0 && e.1 == key.1 {
            return Some(i);
        }
        i = i + 1;
    }
    proof {
        if model.contains_key(key) {
            let j = choose|j: int| 0 <= j < entries@.len() && #[trigger] entry_key(entries@[j]) == key;
            assert(entry_key(entries@[j]) != key);
        }
    }
    None
}

/// Distinct positions of entries that hold `model` have distinct keys.
proof fn lemma_distinct_keys(e: Seq<(u128, u128, u128)>, model: ShareMap, i: int, j: int)
    requires
        entries_hold(e, model),
        0 <= i < e.len(),
        0 <= j < e.len(),
        i != j,
    ensures
        entry_key(e[i]) != entry_key(e[j]),
{
    if i < j {
        assert(entry_key(e[i]) != entry_key(e[j]));
    } else {
        assert(entry_key(e[j]) != entry_key(e[i]));
    }
}

impl Shares {
    #[verifier::type_invariant]
    spec fn inv(&self) -> bool {
        entries_hold(self.entries@, self.model@)
    }

    /// An empty ledger.
    pub fn new() -> (s: Shares)
        ensures
            s@ == Map::<ShareKey, u128>::empty(),
    {
        Shares { entries: Vec::new(), model: Ghost(Map::empty()) }
    }

    /// The number of keys recorded.
    pub fn len(&self) -> (n: usize)
        ensures
            self@.dom().finite(),
            n == self@.dom().len(),
    {
        proof {
            use_type_invariant(self);
            let e = self.entries@;
            let keys = e.map_values(|x: (u128, u128, u128)| entry_key(x));
            assert(keys.no_duplicates()) by {
                assert forall|i: int, j: int|
                    0 <= i < keys.len() && 0 <= j < keys.len() && i != j implies keys[i]
                    != keys[j] by {
                    lemma_distinct_keys(e, self.model@, i, j);
                }
            }
            assert(self@.dom() =~= keys.to_set()) by {
                assert forall|k: ShareKey| self@.dom().contains(k) implies keys.to_set().contains(
                    k,
                ) by {
                    let i = choose|i: int| 0 <= i < e.len() && #[trigger] entry_key(e[i]) == k;
                    assert(keys[i] == k);
                }
                assert forall|k: ShareKey| keys.to_set().contains(k) implies self@.dom().contains(
                    k,
                ) by {
                    let i = choose|i: int| 0 <= i < keys.len() && keys[i] == k;
                    assert(self.model@.contains_key(entry_key(e[i])));
                }
            }
            keys.unique_seq_to_set();
        }
        self.entries.len()
    }

    /// The share recorded under (`account`, `relaychain_account`), if any.
    pub fn get(&self, account: u128, relaychain_account: u128) -> (r: Option<u128>)
        ensures
            r == (if self@.contains_key((account, relaychain_account)) {
                Some(self@[(account, relaychain_account)])
            } else {
                None
            }),
    {
        proof {
            use_type_invariant(self);
        }
        match find(&self.entries, Ghost(self.model@), (account, relaychain_account)) {
            Some(i) => {
                proof {
                    assert(self.model@.contains_key(entry_key(self.entries@[i as int])));
                }
                Some(self.entries[i].2)
            },
            None => None,
        }
    }

    /// Records `amount` under (`account`, `relaychain_account`), replacing
    /// what was there.
    pub fn insert(&mut self, account: u128, relaychain_account: u128, amount: u128)
        ensures
            final(self)@ == old(self)@.insert((account, relaychain_account), amount),
    {
        let mut taken = Shares::new();
        std::mem::swap(self, &mut taken);
        proof {
            use_type_invariant(&taken);
        }
        let Shares { mut entries, model } = taken;
        let key = (account, relaychain_account);
        let ghost old_model = model@;
        let ghost old_entries = entries@;
        let ghost new_model = old_model.insert(key, amount);
        match find(&entries, Ghost(old_model), key) {
            Some(i) => {
                entries.set(i, (account, relaychain_account, amount));
                proof {
                    let e = entries@;
                    assert forall|j: int, k: int| 0 <= j < k < e.len() implies #[trigger] entry_key(
                        e[j],
                    ) != #[trigger] entry_key(e[k]) by {
                        lemma_distinct_keys(old_entries, old_model, j, k);
                    }
                    assert forall|j: int| 0 <= j < e.len() implies #[trigger] new_model.contains_key(
                        entry_key(e[j]),
                    ) && new_model[entry_key(e[j])] == e[j].2 by {
                        if j != i {
                            lemma_distinct_keys(old_entries, old_model, j, i as int);
                            assert(old_model.contains_key(entry_key(old_entries[j])));
                        }
                    }
                    assert forall|k: ShareKey| #[trigger] new_model.contains_key(k) implies exists|
                        j: int,
                    | 0 <= j < e.len() && #[trigger] entry_key(e[j]) == k by {
                        if k == key {
                            assert(entry_key(e[i as int]) == k);
                        } else {
                            let j = choose|j: int|
                                0 <= j < old_entries.len() && #[trigger] entry_key(old_entries[j])
                                    == k;
                            assert(entry_key(e[j]) == k);
                        }
                    }
                }
            },
            None => {
                entries.push((account, relaychain_account, amount));
                proof {
                    let e = entries@;
                    let n = old_entries.len() as int;
                    assert forall|j: int| 0 <= j < n implies #[trigger] entry_key(old_entries[j])
                        != key by {
                        assert(old_model.contains_key(entry_key(old_entries[j])));
                    }
                    assert forall|j: int, k: int| 0 <= j < k < e.len() implies #[trigger] entry_key(
                        e[j],
                    ) != #[trigger] entry_key(e[k]) by {
                        assert(e[j] == old_entries[j]);
                        if k < n {
                            lemma_distinct_keys(old_entries, old_model, j, k);
                        }
                    }
                    assert forall|j: int| 0 <= j < e.len() implies #[trigger] new_model.contains_key(
                        entry_key(e[j]),
                    ) && new_model[entry_key(e[j])] == e[j].2 by {
                        if j < n {
                            assert(e[j] == old_entries[j]);
                            assert(old_model.contains_key(entry_key(old_entries[j])));
                        }
                    }
                    assert forall|k: ShareKey| #[trigger] new_model.contains_key(k) implies exists|
                        j: int,
                    | 0 <= j < e.len() && #[trigger] entry_key(e[j]) == k by {
                        if k == key {
                            assert(entry_key(e[n]) == k);
                        } else {
                            let j = choose|j: int|
                                0 <= j < old_entries.len() && #[trigger] entry_key(old_entries[j])
                                    == k;
                            assert(e[j] == old_entries[j]);
                            assert(entry_key(e[j]) == k);
                        }
                    }
                }
            },
        }
        assert(entries_hold(entries@, new_model));
        *self = Shares { entries, model: Ghost(new_model) };
    }
}

} // verus!
