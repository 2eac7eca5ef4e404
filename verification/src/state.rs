//! The stored state: its well-formedness, lookups and updates of the mint
//! records and of the mintable ids, and the facts about them that the calls
//! rely on.
use vstd::prelude::*;

use crate::model::{
    after_mint, ascending, count_of, empty_state, first_entry, minter_index, set_count, state_wf,
    total_minted, MAX_PER_ADDRESS_LIMIT, MAX_TOKEN_LIMIT,
};
use crate::types::{ContractState, MinterCount, StateView};

verus! {

/// The first entry for an address is where its count is kept.
pub proof fn lemma_first_entry_is_index(counts: Seq<(Seq<char>, u32)>, addr: Seq<char>, i: int)
    requires
        first_entry(counts, addr, i),
    ensures
        minter_index(counts, addr) == i,
{
    let k = choose|k: int| first_entry(counts, addr, k);
    assert(first_entry(counts, addr, k));
    if k < i {
        assert(counts[k].0 != addr);
    } else if k > i {
        assert(counts[i].0 != addr);
    }
}

/// An address without an entry has no index.
pub proof fn lemma_no_entry(counts: Seq<(Seq<char>, u32)>, addr: Seq<char>)
    requires
        forall|j: int| 0 <= j < counts.len() ==> counts[j].0 != addr,
    ensures
        minter_index(counts, addr) == -1,
{
    assert(!exists|i: int| first_entry(counts, addr, i));
}

/// The index of an address, where there is one, is its first entry.
pub proof fn lemma_minter_index_facts(counts: Seq<(Seq<char>, u32)>, addr: Seq<char>)
    ensures
        minter_index(counts, addr) >= 0 ==> first_entry(counts, addr, minter_index(counts, addr)),
        minter_index(counts, addr) < 0 ==> minter_index(counts, addr) == -1,
{
}

/// Changing one record changes the total by the difference of the counts.
pub proof fn lemma_total_update(counts: Seq<(Seq<char>, u32)>, i: int, x: (Seq<char>, u32))
    requires
        0 <= i < counts.len(),
    ensures
        total_minted(counts.update(i, x)) == total_minted(counts) - counts[i].1 + x.1,
    decreases counts.len(),
{
    let u = counts.update(i, x);
    if i == counts.len() - 1 {
        assert(u.drop_last() =~= counts.drop_last());
    } else {
        lemma_total_update(counts.drop_last(), i, x);
        assert(u.drop_last() =~= counts.drop_last().update(i, x));
    }
}

/// Adding a record adds its count to the total.
pub proof fn lemma_total_push(counts: Seq<(Seq<char>, u32)>, x: (Seq<char>, u32))
    ensures
        total_minted(counts.push(x)) == total_minted(counts) + x.1,
{
    assert(counts.push(x).drop_last() =~= counts);
}

/// Totals are never negative, and each record's count is at most the total.
pub proof fn lemma_entry_le_total(counts: Seq<(Seq<char>, u32)>, i: int)
    requires
        0 <= i < counts.len(),
    ensures
        counts[i].1 <= total_minted(counts),
    decreases counts.len(),
{
    lemma_total_nonnegative(counts.drop_last());
    if i < counts.len() - 1 {
        lemma_entry_le_total(counts.drop_last(), i);
    }
}

/// Totals are never negative.
pub proof fn lemma_total_nonnegative(counts: Seq<(Seq<char>, u32)>)
    ensures
        total_minted(counts) >= 0,
    decreases counts.len(),
{
    if counts.len() > 0 {
        lemma_total_nonnegative(counts.drop_last());
    }
}

/// The total of a prefix is at most the total.
pub proof fn lemma_total_prefix(counts: Seq<(Seq<char>, u32)>, i: int)
    requires
        0 <= i <= counts.len(),
    ensures
        total_minted(counts.take(i)) <= total_minted(counts),
    decreases counts.len(),
{
    if i == counts.len() {
        assert(counts.take(i) =~= counts);
    } else {
        lemma_total_prefix(counts.drop_last(), i);
        assert(counts.drop_last().take(i) =~= counts.take(i));
    }
}

/// In an ascending sequence, the index of an element is its position.
pub proof fn lemma_ascending_index_of(ids: Seq<u32>, i: int)
    requires
        ascending(ids),
        0 <= i < ids.len(),
    ensures
        ids.index_of(ids[i]) == i,
{
    assert(ids.contains(ids[i]));
    let k = ids.index_of(ids[i]);
    assert(0 <= k < ids.len() && ids[k] == ids[i]);
    if k < i {
        assert(ids[k] < ids[i]);
    } else if k > i {
        assert(ids[i] < ids[k]);
    }
}

/// Setting the count of `addr` records exactly that count for `addr` and
/// changes no other address's count.
pub proof fn lemma_set_count(counts: Seq<(Seq<char>, u32)>, addr: Seq<char>, c: u32, other: Seq<char>)
    ensures
        count_of(set_count(counts, addr, c), addr) == c,
        other != addr ==> count_of(set_count(counts, addr, c), other) == count_of(counts, other),
{
    let s2 = set_count(counts, addr, c);
    let mi = minter_index(counts, addr);
    lemma_minter_index_facts(counts, addr);
    lemma_minter_index_facts(counts, other);
    if mi >= 0 {
        assert(first_entry(s2, addr, mi));
        lemma_first_entry_is_index(s2, addr, mi);
    } else {
        assert(forall|j: int| 0 <= j < counts.len() ==> counts[j].0 != addr) by {
            assert forall|j: int| 0 <= j < counts.len() implies counts[j].0 != addr by {
                if counts[j].0 == addr {
                    lemma_first_index_exists(counts, addr, j);
                }
            }
        }
        assert(first_entry(s2, addr, counts.len() as int));
        lemma_first_entry_is_index(s2, addr, counts.len() as int);
    }
    if other != addr {
        let oi = minter_index(counts, other);
        if oi >= 0 {
            assert(first_entry(s2, other, oi));
            lemma_first_entry_is_index(s2, other, oi);
        } else {
            assert forall|j: int| 0 <= j < s2.len() implies s2[j].0 != other by {
                if j < counts.len() && counts[j].0 == other {
                    lemma_first_index_exists(counts, other, j);
                }
            }
            lemma_no_entry(s2, other);
        }
    }
}

/// An address with some entry has a first entry.
pub proof fn lemma_first_index_exists(counts: Seq<(Seq<char>, u32)>, addr: Seq<char>, j: int)
    requires
        0 <= j < counts.len(),
        counts[j].0 == addr,
    ensures
        minter_index(counts, addr) >= 0,
    decreases j,
{
    if forall|l: int| 0 <= l < j ==> counts[l].0 != addr {
        assert(first_entry(counts, addr, j));
    } else {
        let l = choose|l: int| 0 <= l < j && counts[l].0 == addr;
        lemma_first_index_exists(counts, addr, l);
    }
}

/// A mint of a mintable id from a well-formed state leaves it well formed:
/// the id leaves the mintable ids and the sender's count grows by one, so the
/// supply is still the mints made plus the ids left. The sender's count stays
/// below the supply, so it can grow.
pub proof fn lemma_after_mint_wf(s: StateView, sender: Seq<char>, id: u32)
    requires
        state_wf(s),
        s.mintable_ids.contains(id),
    ensures
        s.config is Some,
        s.mintable_num_tokens == Some(s.mintable_ids.len() as u32),
        1 <= s.mintable_ids.len() <= s.config->Some_0.num_tokens,
        count_of(s.mint_counts, sender) + 1 <= s.config->Some_0.num_tokens,
        state_wf(after_mint(s, sender, id, s.mintable_num_tokens->Some_0)),
{
    let ids = s.mintable_ids;
    let k = choose|k: int| 0 <= k < ids.len() && ids[k] == id;
    lemma_ascending_index_of(ids, k);
    lemma_total_nonnegative(s.mint_counts);
    let c = s.config->Some_0;
    let mi = minter_index(s.mint_counts, sender);
    lemma_minter_index_facts(s.mint_counts, sender);
    if mi >= 0 {
        lemma_entry_le_total(s.mint_counts, mi);
    }
    let count = count_of(s.mint_counts, sender);
    let s2 = after_mint(s, sender, id, s.mintable_num_tokens->Some_0);
    let ids1 = s2.mintable_ids;
    assert(ids1 =~= ids.remove(k));
    assert forall|i: int| 0 <= i < ids1.len() implies 1 <= #[trigger] ids1[i] <= c.num_tokens by {
        if i < k {
            assert(ids1[i] == ids[i]);
        } else {
            assert(ids1[i] == ids[i + 1]);
        }
    }
    assert(ascending(ids1)) by {
        assert forall|a: int, b: int| 0 <= a < b < ids1.len() implies ids1[a] < ids1[b] by {
            let a0 = if a < k { a } else { a + 1 };
            let b0 = if b < k { b } else { b + 1 };
            assert(ids1[a] == ids[a0]);
            assert(ids1[b] == ids[b0]);
        }
    }
    if mi >= 0 {
        lemma_total_update(s.mint_counts, mi, (sender, (count + 1) as u32));
    } else {
        lemma_total_push(s.mint_counts, (sender, (count + 1) as u32));
    }
}

impl ContractState {
    /// The state is one that the contract's calls produce.
    pub open spec fn wf(&self) -> bool {
        state_wf(self@)
    }

    /// The state of a contract that has not been instantiated.
    pub fn new() -> (s: Self)
        ensures
            s@ == empty_state(),
            s.wf(),
    {
        let s = ContractState {
            contract_version: None,
            config: None,
            an721_address: None,
            mintable_num_tokens: None,
            mintable_token_ids: Vec::new(),
            minter_counts: Vec::new(),
        };
        assert(s@.mint_counts =~= Seq::empty());
        s
    }

    /// Where the count of `addr` is kept.
    fn minter_position(&self, addr: &String) -> (r: Option<usize>)
        ensures
            match r {
                Some(i) => first_entry(self@.mint_counts, addr@, i as int) && minter_index(
                    self@.mint_counts,
                    addr@,
                ) == i,
                None => minter_index(self@.mint_counts, addr@) == -1,
            },
    {
        let ghost counts = self@.mint_counts;
        let mut i: usize = 0;
        while i < self.minter_counts.len()
            invariant
                i <= self.minter_counts.len(),
                counts == self@.mint_counts,
                counts.len() == self.minter_counts.len(),
                forall|j: int| 0 <= j < i ==> counts[j].0 != addr@,
            decreases self.minter_counts.len() - i,
        {
            assert(counts[i as int] == self.minter_counts[i as int]@);
            if self.minter_counts[i].address == *addr {
                proof {
                    lemma_first_entry_is_index(counts, addr@, i as int);
                }
                return Some(i);
            }
            i = i + 1;
        }
        proof {
            lemma_no_entry(counts, addr@);
        }
        None
    }

    /// The number of mints recorded for `addr` (0 when there is none).
    pub fn mint_count(&self, addr: &String) -> (c: u32)
        ensures
            c == count_of(self@.mint_counts, addr@),
    {
        match self.minter_position(addr) {
            Some(i) => {
                assert(self@.mint_counts[i as int] == self.minter_counts[i as int]@);
                self.minter_counts[i].count
            },
            None => 0,
        }
    }

    /// Records `c` as the number of mints of `addr`.
    pub(crate) fn set_mint_count(&mut self, addr: &String, c: u32)
        ensures
            final(self)@ == (StateView {
                mint_counts: set_count(old(self)@.mint_counts, addr@, c),
                ..old(self)@
            }),
    {
        let entry = MinterCount { address: addr.clone(), count: c };
        match self.minter_position(addr) {
            Some(i) => {
                self.minter_counts.set(i, entry);
                assert(self@.mint_counts =~= old(self)@.mint_counts.update(i as int, (addr@, c)));
            },
            None => {
                self.minter_counts.push(entry);
                assert(self@.mint_counts =~= old(self)@.mint_counts.push((addr@, c)));
            },
        }
        assert(self@ =~= (StateView {
            mint_counts: set_count(old(self)@.mint_counts, addr@, c),
            ..old(self)@
        }));
    }

    /// Where `id` stands among the mintable ids, if it is one of them.
    pub(crate) fn token_position(&self, id: u32) -> (r: Option<usize>)
        requires
            ascending(self@.mintable_ids),
        ensures
            match r {
                Some(i) => i < self@.mintable_ids.len() && self@.mintable_ids[i as int] == id
                    && self@.mintable_ids.index_of(id) == i,
                None => !self@.mintable_ids.contains(id),
            },
    {
        let mut lo: usize = 0;
        let mut hi: usize = self.mintable_token_ids.len();
        while lo < hi
            invariant
                lo <= hi <= self.mintable_token_ids.len(),
                ascending(self@.mintable_ids),
                forall|j: int| 0 <= j < lo ==> self@.mintable_ids[j] < id,
                forall|j: int| hi <= j < self@.mintable_ids.len() ==> self@.mintable_ids[j] > id,
            decreases hi - lo,
        {
            let mid = lo + (hi - lo) / 2;
            let v = self.mintable_token_ids[mid];
            if v == id {
                proof {
                    lemma_ascending_index_of(self@.mintable_ids, mid as int);
                }
                return Some(mid);
            } else if v < id {
                lo = mid + 1;
            } else {
                hi = mid;
            }
        }
        None
    }

    /// Decides whether the state is one that the contract's calls produce.
    pub fn check_wf(&self) -> (b: bool)
        ensures
            b == self.wf(),
    {
        let ids = &self.mintable_token_ids;
        let n = ids.len();
        let mut i: usize = 1;
        while i < n
            invariant
                1 <= i || n == 0,
                n == ids@.len(),
                ids@ == self@.mintable_ids,
                forall|a: int, b: int| 0 <= a < b < i && b < n ==> ids@[a] < ids@[b],
            decreases n - i,
        {
            if ids[i - 1] >= ids[i] {
                assert(!ascending(self@.mintable_ids)) by {
                    let a = i - 1;
                    assert(ids@[a as int] >= ids@[i as int]);
                }
                return false;
            }
            i = i + 1;
        }
        assert(ascending(self@.mintable_ids));
        match &self.config {
            None => self.mintable_num_tokens.is_none() && n == 0 && self.minter_counts.len() == 0,
            Some(c) => {
                if c.num_tokens < 1 || c.num_tokens > MAX_TOKEN_LIMIT || c.per_address_limit < 1
                    || c.per_address_limit > MAX_PER_ADDRESS_LIMIT || n > MAX_TOKEN_LIMIT as usize {
                    proof {
                        lemma_total_nonnegative(self@.mint_counts);
                    }
                    return false;
                }
                match self.mintable_num_tokens {
                    None => { return false; },
                    Some(m) => {
                        if m as usize != n {
                            assert(self@.mintable_num_tokens != Some(self@.mintable_ids.len() as u32));
                            assert(!state_wf(self@));
                            return false;
                        }
                    },
                }
                let mut k: usize = 0;
                while k < n
                    invariant
                        k <= n,
                        n == ids@.len(),
                        ids@ == self@.mintable_ids,
                        self@.config == Some(c@),
                        forall|j: int| 0 <= j < k ==> 1 <= #[trigger] ids@[j] <= c.num_tokens,
                    decreases n - k,
                {
                    if ids[k] < 1 || ids[k] > c.num_tokens {
                        assert(!(1 <= self@.mintable_ids[k as int] <= c.num_tokens));
                        return false;
                    }
                    k = k + 1;
                }
                let counts = &self.minter_counts;
                let ghost cv = self@.mint_counts;
                let mut total: u64 = 0;
                let mut j: usize = 0;
                while j < counts.len()
                    invariant
                        j <= counts.len(),
                        cv == self@.mint_counts,
                        counts@ == self.minter_counts@,
                        cv.len() == counts.len(),
                        total == total_minted(cv.take(j as int)),
                        total <= MAX_TOKEN_LIMIT,
                    decreases counts.len() - j,
                {
                    assert(cv.take(j + 1).drop_last() =~= cv.take(j as int));
                    assert(cv[j as int] == self.minter_counts@[j as int]@);
                    assert(cv.take(j + 1).last() == cv[j as int]);
                    let cj = counts[j].count;
                    assert(cv[j as int].1 == cj);
                    assert(total_minted(cv.take(j + 1)) == total_minted(cv.take(j as int)) + cj);
                    total = total + cj as u64;
                    assert(total == total_minted(cv.take(j + 1)));
                    if total > MAX_TOKEN_LIMIT as u64 {
                        proof {
                            lemma_total_prefix(cv, j + 1);
                        }
                        return false;
                    }
                    j = j + 1;
                }
                assert(cv.take(cv.len() as int) =~= cv);
                total + n as u64 == c.num_tokens as u64
            },
        }
    }
}

} // verus!
