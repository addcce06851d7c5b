use vstd::prelude::*;

use crate::account::Account;

verus! {

/// One provider's share balance.
#[derive(Debug)]
struct ShareEntry {
    owner: Account,
    shares: i128,
}

/// Share balance recorded for `who` in `s` (zero when `who` has no entry).
spec fn lookup(s: Seq<ShareEntry>, who: Seq<u8>) -> i128
    decreases s.len(),
{
    if s.len() == 0 {
        0
    } else if s.last().owner@ == who {
        s.last().shares
    } else {
        lookup(s.drop_last(), who)
    }
}

/// Sum of all balances in `s`.
spec fn sum(s: Seq<ShareEntry>) -> int
    decreases s.len(),
{
    if s.len() == 0 {
        0
    } else {
        sum(s.drop_last()) + s.last().shares
    }
}

/// No owner appears twice in `s`.
spec fn distinct_owners(s: Seq<ShareEntry>) -> bool {
    forall|i: int, j: int|
        0 <= i < j < s.len() ==> (#[trigger] s[i]).owner@ != (#[trigger] s[j]).owner@
}

proof fn lemma_lookup_absent(s: Seq<ShareEntry>, who: Seq<u8>)
    requires
        forall|i: int| 0 <= i < s.len() ==> (#[trigger] s[i]).owner@ != who,
    ensures
        lookup(s, who) == 0,
    decreases s.len(),
{
    if s.len() > 0 {
        assert(s.last() == s[s.len() - 1]);
        let t = s.drop_last();
        assert forall|i: int| 0 <= i < t.len() implies (#[trigger] t[i]).owner@ != who by {
            assert(t[i] == s[i]);
        }
        lemma_lookup_absent(t, who);
    }
}

proof fn lemma_update(s: Seq<ShareEntry>, i: int, e: ShareEntry)
    requires
        distinct_owners(s),
        0 <= i < s.len(),
        e.owner@ == s[i].owner@,
    ensures
        distinct_owners(s.update(i, e)),
        forall|who: Seq<u8>|
            #[trigger] lookup(s.update(i, e), who) == if who == e.owner@ {
                e.shares
            } else {
                lookup(s, who)
            },
        sum(s.update(i, e)) == sum(s) - s[i].shares + e.shares,
    decreases s.len(),
{
    let t = s.update(i, e);
    assert forall|a: int, b: int| 0 <= a < b < t.len() implies (#[trigger] t[a]).owner@ != (
    #[trigger] t[b]).owner@ by {
        assert(s[a].owner@ != s[b].owner@);
    }
    let n = s.len() - 1;
    if i == n {
        assert(t.drop_last() =~= s.drop_last());
        assert(t.last() == e);
        assert forall|who: Seq<u8>| #[trigger]
            lookup(t, who) == if who == e.owner@ {
                e.shares
            } else {
                lookup(s, who)
            } by {
            if who != e.owner@ {
                assert(s.last() == s[n]);
            }
        }
    } else {
        let sd = s.drop_last();
        assert(t.drop_last() =~= sd.update(i, e));
        assert(t.last() == s.last());
        assert(distinct_owners(sd)) by {
            assert forall|a: int, b: int| 0 <= a < b < sd.len() implies (#[trigger] sd[a]).owner@
                != (#[trigger] sd[b]).owner@ by {
                assert(sd[a] == s[a] && sd[b] == s[b]);
            }
        }
        assert(sd[i] == s[i]);
        lemma_update(sd, i, e);
        assert(s.last() == s[n]);
        assert(s[i].owner@ != s[n].owner@);
        assert forall|who: Seq<u8>| #[trigger]
            lookup(t, who) == if who == e.owner@ {
                e.shares
            } else {
                lookup(s, who)
            } by {
            assert(lookup(sd.update(i, e), who) == if who == e.owner@ {
                e.shares
            } else {
                lookup(sd, who)
            });
        }
    }
}

proof fn lemma_push(s: Seq<ShareEntry>, e: ShareEntry)
    requires
        distinct_owners(s),
        forall|i: int| 0 <= i < s.len() ==> (#[trigger] s[i]).owner@ != e.owner@,
    ensures
        distinct_owners(s.push(e)),
        forall|who: Seq<u8>|
            #[trigger] lookup(s.push(e), who) == if who == e.owner@ {
                e.shares
            } else {
                lookup(s, who)
            },
        sum(s.push(e)) == sum(s) + e.shares,
{
    let t = s.push(e);
    assert(t.drop_last() =~= s);
    assert(t.last() == e);
    assert forall|a: int, b: int| 0 <= a < b < t.len() implies (#[trigger] t[a]).owner@ != (
    #[trigger] t[b]).owner@ by {
        if b == s.len() {
            assert(t[a] == s[a]);
        } else {
            assert(t[a] == s[a] && t[b] == s[b]);
        }
    }
    assert forall|who: Seq<u8>| #[trigger]
        lookup(t, who) == if who == e.owner@ {
            e.shares
        } else {
            lookup(s, who)
        } by {}
}

/// The share balance of every liquidity provider. A provider without an
/// entry holds no shares.
#[derive(Debug)]
pub struct ShareLedger {
    entries: Vec<ShareEntry>,
}

impl View for ShareLedger {
    type V = Map<Seq<u8>, i128>;

    /// Every account's balance; accounts without an entry hold zero.
    closed spec fn view(&self) -> Map<Seq<u8>, i128> {
        Map::total(|k: Seq<u8>| lookup(self.entries@, k))
    }
}

impl ShareLedger {
    #[verifier::type_invariant]
    spec fn owners_distinct(self) -> bool {
        distinct_owners(self.entries@)
    }

    /// Sum of the shares held by all providers.
    pub closed spec fn total(self) -> int {
        sum(self.entries@)
    }

    /// A ledger in which nobody holds shares.
    pub fn new() -> (l: ShareLedger)
        ensures
            l@ == Map::total(|k: Seq<u8>| 0i128),
            l.total() == 0,
    {
        let l = ShareLedger { entries: Vec::new() };
        assert(l@ =~= Map::total(|k: Seq<u8>| 0i128));
        l
    }

    /// Shares held by `who`.
    pub fn get(&self, who: &Account) -> (r: i128)
        ensures
            r == self@[who@],
    {
        proof {
            use_type_invariant(self);
        }
        match find_in(&self.entries, who) {
            Some(i) => {
                proof {
                    lemma_lookup_at(self.entries@, i as int);
                }
                self.entries[i].shares
            },
            None => {
                proof {
                    lemma_lookup_absent(self.entries@, who@);
                }
                0
            },
        }
    }

    /// Records that `who` now holds `shares`; every other balance stays.
    pub fn set(&mut self, who: &Account, shares: i128)
        ensures
            final(self).total() == old(self).total() - old(self)@[who@] + shares,
            final(self)@ == old(self)@.insert(who@, shares),
    {
        proof {
            use_type_invariant(&*self);
        }
        let mut entries: Vec<ShareEntry> = Vec::new();
        std::mem::swap(&mut entries, &mut self.entries);
        let ghost s = entries@;
        match find_in(&entries, who) {
            Some(i) => {
                let e = ShareEntry { owner: who.duplicate(), shares };
                proof {
                    lemma_lookup_at(s, i as int);
                    lemma_update(s, i as int, e);
                }
                entries.set(i, e);
                assert(entries@ == s.update(i as int, e));
            },
            None => {
                let e = ShareEntry { owner: who.duplicate(), shares };
                proof {
                    lemma_lookup_absent(s, who@);
                    lemma_push(s, e);
                }
                entries.push(e);
            },
        }
        self.entries = entries;
        assert(self@ =~= old(self)@.insert(who@, shares));
    }
}

fn find_in(entries: &Vec<ShareEntry>, who: &Account) -> (r: Option<usize>)
    ensures
        r matches Some(i) ==> i < entries@.len() && entries@[i as int].owner@ == who@,
        r is None ==> forall|i: int|
            0 <= i < entries@.len() ==> (#[trigger] entries@[i]).owner@ != who@,
{
    let n = entries.len();
    let mut i: usize = 0;
    while i < n
        invariant
            n == entries@.len(),
            i <= n,
            forall|j: int| 0 <= j < i ==> (#[trigger] entries@[j]).owner@ != who@,
        decreases n - i,
    {
        if entries[i].owner.same_as(who) {
            return Some(i);
        }
        i = i + 1;
    }
    None
}

proof fn lemma_lookup_at(s: Seq<ShareEntry>, i: int)
    requires
        distinct_owners(s),
        0 <= i < s.len(),
    ensures
        lookup(s, s[i].owner@) == s[i].shares,
    decreases s.len(),
{
    let n = s.len() - 1;
    assert(s.last() == s[n]);
    if i < n {
        let sd = s.drop_last();
        assert(s[i].owner@ != s[n].owner@);
        assert(distinct_owners(sd)) by {
            assert forall|a: int, b: int| 0 <= a < b < sd.len() implies (#[trigger] sd[a]).owner@
                != (#[trigger] sd[b]).owner@ by {
                assert(sd[a] == s[a] && sd[b] == s[b]);
            }
        }
        assert(sd[i] == s[i]);
        lemma_lookup_at(sd, i);
    }
}

} // verus!
