use std::collections::HashMap;
use vstd::prelude::*;
use vstd::std_specs::hash::*;

verus! {

/// Byte-wise comparison of two identifiers.
pub fn id_bytes_equal(a: &[u8; 32], b: &[u8; 32]) -> (same: bool)
    ensures
        same == (a@ == b@),
{
    let mut i: usize = 0;
    while i < 32
        invariant
            i <= 32,
            forall|j: int| 0 <= j < i ==> a@[j] == b@[j],
        decreases 32 - i,
    {
        if a[i] != b[i] {
            return false;
        }
        i += 1;
    }
    assert(a@ =~= b@);
    true
}

/// The chain's identifier of a block.
#[derive(Clone, Copy, Debug, PartialEq, Eq)]
pub struct BlockHash {
    pub bytes: [u8; 32],
}

impl View for BlockHash {
    type V = Seq<u8>;

    open spec fn view(&self) -> Seq<u8> {
        self.bytes@
    }
}

/// A block as observed: its hash and its height.
///
/// Two handles denote the same block exactly when their hashes agree.
#[derive(Clone, Copy, Debug, PartialEq, Eq)]
pub struct BlockHandle {
    pub hash: BlockHash,
    pub height: u64,
}

impl BlockHandle {
    /// Whether two handles denote the same block.
    pub open spec fn same_block_spec(&self, other: &BlockHandle) -> bool {
        self.hash@ == other.hash@
    }

    /// Whether `other` denotes the same block.
    pub fn same_block(&self, other: &BlockHandle) -> (same: bool)
        ensures
            same == self.same_block_spec(other),
    {
        id_bytes_equal(&self.hash.bytes, &other.hash.bytes)
    }
}

/// The transactions of one block, in the order the chain gives them.
#[derive(Clone, Debug, PartialEq, Eq)]
pub struct TransactionBatch<T> {
    pub height: u64,
    pub transactions: Vec<T>,
}

/// The chain's identifier of an account.
#[derive(Clone, Copy, Debug, PartialEq, Eq)]
pub struct AccountAddress {
    pub bytes: [u8; 32],
}

impl View for AccountAddress {
    type V = Seq<u8>;

    open spec fn view(&self) -> Seq<u8> {
        self.bytes@
    }
}

/// The map that a list of entries stands for: each entry maps its address to
/// its amount, a later entry replacing an earlier one for the same address.
pub open spec fn balances_of(entries: Seq<(AccountAddress, u64)>) -> Map<Seq<u8>, u64>
    decreases entries.len(),
{
    if entries.len() == 0 {
        Map::empty()
    } else {
        balances_of(entries.drop_last()).insert(entries.last().0@, entries.last().1)
    }
}

/// No address occurs in two entries.
pub open spec fn addresses_distinct(entries: Seq<(AccountAddress, u64)>) -> bool {
    forall|i: int, j: int|
        0 <= i < j < entries.len() ==> (#[trigger] entries[i]).0@ != (#[trigger] entries[j]).0@
}

/// The address is that of no entry.
pub open spec fn address_absent(entries: Seq<(AccountAddress, u64)>, address: Seq<u8>) -> bool {
    forall|i: int| 0 <= i < entries.len() ==> (#[trigger] entries[i]).0@ != address
}

proof fn lemma_balances_domain(entries: Seq<(AccountAddress, u64)>, address: Seq<u8>)
    ensures
        balances_of(entries).dom().finite(),
        balances_of(entries).contains_key(address) <==> !address_absent(entries, address),
    decreases entries.len(),
{
    if entries.len() > 0 {
        let front = entries.drop_last();
        lemma_balances_domain(front, address);
        if !address_absent(front, address) {
            let i = choose|i: int| 0 <= i < front.len() && (#[trigger] front[i]).0@ == address;
            assert(entries[i].0@ == address);
        }
        if !address_absent(entries, address) {
            let i = choose|i: int| 0 <= i < entries.len() && (#[trigger] entries[i]).0@ == address;
            if i < front.len() {
                assert(front[i].0@ == address);
            }
        }
    }
}

proof fn lemma_balances_entry(entries: Seq<(AccountAddress, u64)>, i: int)
    requires
        addresses_distinct(entries),
        0 <= i < entries.len(),
    ensures
        balances_of(entries).contains_key(entries[i].0@),
        balances_of(entries)[entries[i].0@] == entries[i].1,
    decreases entries.len(),
{
    let front = entries.drop_last();
    if i < entries.len() - 1 {
        assert(front[i] == entries[i]);
        assert(entries[i].0@ != entries[entries.len() - 1].0@);
        lemma_balances_entry(front, i);
    }
}

proof fn lemma_balances_replace(entries: Seq<(AccountAddress, u64)>, i: int, amount: u64)
    requires
        addresses_distinct(entries),
        0 <= i < entries.len(),
    ensures
        addresses_distinct(entries.update(i, (entries[i].0, amount))),
        balances_of(entries.update(i, (entries[i].0, amount))) == balances_of(entries).insert(
            entries[i].0@,
            amount,
        ),
    decreases entries.len(),
{
    let changed = entries.update(i, (entries[i].0, amount));
    let front = entries.drop_last();
    assert forall|a: int, b: int| 0 <= a < b < changed.len() implies (#[trigger] changed[a]).0@ != (
    #[trigger] changed[b]).0@ by {
        assert(changed[a].0@ == entries[a].0@);
        assert(changed[b].0@ == entries[b].0@);
    }
    if i == entries.len() - 1 {
        assert(changed.drop_last() =~= front);
        assert(balances_of(changed) =~= balances_of(entries).insert(entries[i].0@, amount));
    } else {
        assert(front[i] == entries[i]);
        assert(changed.drop_last() =~= front.update(i, (front[i].0, amount)));
        lemma_balances_replace(front, i, amount);
        assert(entries[i].0@ != entries[entries.len() - 1].0@);
        assert(changed.last() == entries.last());
        assert(balances_of(changed) =~= balances_of(entries).insert(entries[i].0@, amount));
    }
}

proof fn lemma_balances_count(entries: Seq<(AccountAddress, u64)>)
    requires
        addresses_distinct(entries),
    ensures
        balances_of(entries).dom().finite(),
        balances_of(entries).dom().len() == entries.len(),
    decreases entries.len(),
{
    if entries.len() > 0 {
        let front = entries.drop_last();
        let last = entries.last();
        lemma_balances_count(front);
        lemma_balances_domain(front, last.0@);
        assert(address_absent(front, last.0@)) by {
            assert forall|i: int| 0 <= i < front.len() implies (#[trigger] front[i]).0@
                != last.0@ by {
                assert(front[i] == entries[i]);
                assert(entries[i].0@ != entries[entries.len() - 1].0@);
            }
        }
        assert(balances_of(entries).dom() =~= balances_of(front).dom().insert(last.0@));
    }
}

/// The amount held by each account at one block. No address occurs twice.
#[derive(Debug, PartialEq, Eq)]
pub struct AccountBalances {
    entries: Vec<(AccountAddress, u64)>,
}

impl View for AccountBalances {
    type V = Map<Seq<u8>, u64>;

    closed spec fn view(&self) -> Map<Seq<u8>, u64> {
        balances_of(self.entries@)
    }
}

impl Clone for AccountBalances {
    fn clone(&self) -> (copy: AccountBalances)
        ensures
            copy@ == self@,
            copy.listing() == self.listing(),
    {
        proof {
            use_type_invariant(self);
        }
        let mut entries: Vec<(AccountAddress, u64)> = Vec::new();
        let mut i: usize = 0;
        while i < self.entries.len()
            invariant
                i <= self.entries@.len(),
                entries@ == self.entries@.take(i as int),
            decreases self.entries@.len() - i,
        {
            entries.push(self.entries[i]);
            i += 1;
            assert(entries@ =~= self.entries@.take(i as int));
        }
        assert(entries@ =~= self.entries@);
        AccountBalances { entries }
    }
}

impl AccountBalances {
    #[verifier::type_invariant]
    spec fn unique(&self) -> bool {
        addresses_distinct(self.entries@)
    }

    /// The entries behind the map, in the order the addresses first came.
    pub closed spec fn listing(&self) -> Seq<(AccountAddress, u64)> {
        self.entries@
    }

    /// Balances of no account.
    pub fn new() -> (balances: AccountBalances)
        ensures
            balances@ == Map::<Seq<u8>, u64>::empty(),
            balances.listing() == Seq::<(AccountAddress, u64)>::empty(),
    {
        AccountBalances { entries: Vec::new() }
    }

    fn position(&self, address: &AccountAddress) -> (at: Option<usize>)
        ensures
            match at {
                Some(i) => i < self.entries@.len() && self.entries@[i as int].0@ == address@,
                None => address_absent(self.entries@, address@),
            },
    {
        let mut i: usize = 0;
        while i < self.entries.len()
            invariant
                i <= self.entries@.len(),
                forall|j: int| 0 <= j < i ==> (#[trigger] self.entries@[j]).0@ != address@,
            decreases self.entries@.len() - i,
        {
            if id_bytes_equal(&self.entries[i].0.bytes, &address.bytes) {
                return Some(i);
            }
            i += 1;
        }
        None
    }

    /// The amount recorded for `address`, if any.
    pub fn get(&self, address: &AccountAddress) -> (amount: Option<u64>)
        ensures
            amount == (if self@.contains_key(address@) {
                Some(self@[address@])
            } else {
                None
            }),
    {
        proof {
            use_type_invariant(self);
            lemma_balances_domain(self.entries@, address@);
        }
        match self.position(address) {
            Some(i) => {
                proof {
                    lemma_balances_entry(self.entries@, i as int);
                }
                Some(self.entries[i].1)
            },
            None => None,
        }
    }

    /// Records `amount` for `address`, in place of what was recorded for it
    /// before, and returns that earlier amount.
    pub fn insert(&mut self, address: AccountAddress, amount: u64) -> (previous: Option<u64>)
        ensures
            final(self)@ == old(self)@.insert(address@, amount),
            previous == (if old(self)@.contains_key(address@) {
                Some(old(self)@[address@])
            } else {
                None
            }),
    {
        proof {
            use_type_invariant(&*self);
            lemma_balances_domain(self.entries@, address@);
        }
        let found = self.position(&address);
        let mut entries: Vec<(AccountAddress, u64)> = Vec::new();
        std::mem::swap(&mut self.entries, &mut entries);
        let previous = match found {
            Some(i) => {
                let (kept, previous) = entries[i];
                proof {
                    lemma_balances_entry(entries@, i as int);
                    lemma_balances_replace(entries@, i as int, amount);
                }
                entries[i] = (kept, amount);
                Some(previous)
            },
            None => {
                entries.push((address, amount));
                assert(entries@.drop_last() =~= old(self).entries@);
                None
            },
        };
        std::mem::swap(&mut self.entries, &mut entries);
        previous
    }

    /// The balances that a list of pairs stands for, a later pair replacing
    /// an earlier one for the same address.
    pub fn from_entries(entries: Vec<(AccountAddress, u64)>) -> (balances: AccountBalances)
        ensures
            balances@ == balances_of(entries@),
    {
        let mut balances = AccountBalances::new();
        let mut i: usize = 0;
        while i < entries.len()
            invariant
                i <= entries@.len(),
                balances@ == balances_of(entries@.take(i as int)),
            decreases entries@.len() - i,
        {
            let (address, amount) = entries[i];
            balances.insert(address, amount);
            i += 1;
            assert(entries@.take(i as int).drop_last() =~= entries@.take(i - 1));
        }
        assert(entries@.take(i as int) =~= entries@);
        balances
    }

    /// The number of accounts.
    pub fn len(&self) -> (n: usize)
        ensures
            n == self@.dom().len(),
            self@.dom().finite(),
    {
        proof {
            use_type_invariant(self);
            lemma_balances_count(self.entries@);
        }
        self.entries.len()
    }

    /// The entries, one per account.
    pub fn entries(&self) -> (entries: &Vec<(AccountAddress, u64)>)
        ensures
            entries@ == self.listing(),
            addresses_distinct(entries@),
            self@ == balances_of(entries@),
    {
        proof {
            use_type_invariant(self);
        }
        &self.entries
    }
}

/// The chain's address of a smart-contract instance.
#[derive(Clone, Copy, Debug, PartialEq, Eq)]
pub struct ContractAddress {
    pub index: u64,
    pub subindex: u64,
}

/// The map that a list of instances stands for: each entry maps the index of
/// its address to its record, a later entry replacing an earlier one under
/// the same index.
pub open spec fn instances_of<I>(entries: Seq<(ContractAddress, I)>) -> Map<u64, I>
    decreases entries.len(),
{
    if entries.len() == 0 {
        Map::empty()
    } else {
        instances_of(entries.drop_last()).insert(entries.last().0.index, entries.last().1)
    }
}

/// The smart-contract instances at one block, each under the index of its
/// address. `I` is the record the node gives for an instance.
#[derive(Clone, Debug, PartialEq, Eq)]
pub struct ContractInstances<I> {
    pub by_index: HashMap<u64, I>,
}

impl<I> View for ContractInstances<I> {
    type V = Map<u64, I>;

    open spec fn view(&self) -> Map<u64, I> {
        self.by_index@
    }
}

impl<I> ContractInstances<I> {
    /// No instance.
    pub fn new() -> (instances: ContractInstances<I>)
        ensures
            instances@ == Map::<u64, I>::empty(),
    {
        ContractInstances { by_index: HashMap::new() }
    }

    /// Records `info` under `index`, in place of what was recorded there
    /// before, and returns that earlier record.
    pub fn insert(&mut self, index: u64, info: I) -> (previous: Option<I>)
        ensures
            final(self)@ == old(self)@.insert(index, info),
            previous == (if old(self)@.contains_key(index) {
                Some(old(self)@[index])
            } else {
                None
            }),
    {
        broadcast use group_hash_axioms;

        self.by_index.insert(index, info)
    }

    /// The instances that a list of pairs stands for, a later pair replacing
    /// an earlier one under the same index.
    pub fn from_entries(entries: Vec<(ContractAddress, I)>) -> (instances: ContractInstances<I>)
        ensures
            instances@ == instances_of(entries@),
    {
        let mut instances = ContractInstances::new();
        let ghost all = entries@;
        for entry in it: entries
            invariant
                all == it.seq(),
                instances@ == instances_of(all.take(it.index() as int)),
        {
            let (address, info) = entry;
            instances.insert(address.index, info);
            proof {
                let n = it.index() as int;
                assert(all.take(n + 1).drop_last() =~= all.take(n));
            }
        }
        assert(all.take(all.len() as int) =~= all);
        instances
    }

    /// The record under `index`, if any.
    pub fn get(&self, index: u64) -> (info: Option<&I>)
        ensures
            info == (if self@.contains_key(index) {
                Some(&self@[index])
            } else {
                None
            }),
    {
        broadcast use group_hash_axioms;

        self.by_index.get(&index)
    }

    /// The number of instances.
    pub fn len(&self) -> (n: usize)
        ensures
            n == self@.dom().len(),
            self@.dom().finite(),
    {
        broadcast use group_hash_axioms;

        self.by_index.len()
    }
}

/// The state of the chain at one block: what is delivered on the new-block
/// channel. It is made whole or not at all.
#[derive(Clone, Debug, PartialEq, Eq)]
pub struct BlockSnapshot<I> {
    pub hash: BlockHash,
    pub height: u64,
    pub balances: AccountBalances,
    pub contracts: ContractInstances<I>,
}

} // verus!
