//! The keyed collections that hold the contract's persistent records.
//!
//! Each collection keeps its entries in a `Vec` in which no key occurs twice,
//! and is seen from outside as the map (or set) that those entries describe.

use vstd::prelude::*;

use crate::types::{Account, Coupon, CouponView};

verus! {

/// No key occurs twice among the entries.
spec fn distinct_keys<K, V>(s: Seq<(K, V)>) -> bool {
    forall|i: int, j: int|
        #![trigger s[i], s[j]]
        0 <= i < s.len() && 0 <= j < s.len() && i != j ==> s[i].0 != s[j].0
}

/// Some entry holds the key.
spec fn has_key<K, V>(s: Seq<(K, V)>, k: K) -> bool {
    exists|i: int| 0 <= i < s.len() && #[trigger] s[i].0 == k
}

/// The position of an entry that holds the key.
spec fn key_slot<K, V>(s: Seq<(K, V)>, k: K) -> int {
    choose|i: int| 0 <= i < s.len() && #[trigger] s[i].0 == k
}

/// The map from each key to the value stored beside it.
spec fn keyed<K, V>(s: Seq<(K, V)>) -> Map<K, V> {
    Map::new(|k: K| has_key(s, k), |k: K| s[key_slot(s, k)].1)
}

proof fn lemma_slot<K, V>(s: Seq<(K, V)>, i: int)
    requires
        distinct_keys(s),
        0 <= i < s.len(),
    ensures
        has_key(s, s[i].0),
        key_slot(s, s[i].0) == i,
        keyed(s).contains_key(s[i].0),
        keyed(s)[s[i].0] == s[i].1,
{
    let k = s[i].0;
    assert(s[i].0 == k);
    assert(has_key(s, k));
    let j = key_slot(s, k);
    assert(0 <= j < s.len() && s[j].0 == k);
    if j != i {
        assert(s[i].0 != s[j].0);
    }
}

proof fn lemma_keyed_update<K, V>(s: Seq<(K, V)>, i: int, v: V)
    requires
        distinct_keys(s),
        0 <= i < s.len(),
    ensures
        distinct_keys(s.update(i, (s[i].0, v))),
        keyed(s.update(i, (s[i].0, v))) == keyed(s).insert(s[i].0, v),
{
    let t = s.update(i, (s[i].0, v));
    assert(distinct_keys(t)) by {
        assert forall|a: int, b: int|
            #![trigger t[a], t[b]]
            0 <= a < t.len() && 0 <= b < t.len() && a != b implies t[a].0 != t[b].0 by {
            assert(t[a].0 == s[a].0);
            assert(t[b].0 == s[b].0);
            assert(s[a].0 != s[b].0);
        }
    }
    let m = keyed(s).insert(s[i].0, v);
    assert forall|k: K| #[trigger] has_key(t, k) <==> m.contains_key(k) by {
        if has_key(t, k) {
            let j = choose|j: int| 0 <= j < t.len() && #[trigger] t[j].0 == k;
            assert(s[j].0 == k);
            assert(has_key(s, k));
        }
        if m.contains_key(k) {
            if k == s[i].0 {
                assert(t[i].0 == k);
            } else {
                let j = choose|j: int| 0 <= j < s.len() && #[trigger] s[j].0 == k;
                assert(t[j].0 == k);
            }
        }
    }
    assert forall|k: K| has_key(t, k) implies #[trigger] keyed(t)[k] == m[k] by {
        let j = choose|j: int| 0 <= j < t.len() && #[trigger] t[j].0 == k;
        lemma_slot(t, j);
        if j != i {
            lemma_slot(s, j);
        }
    }
    assert(keyed(t) =~= m);
}

proof fn lemma_keyed_push<K, V>(s: Seq<(K, V)>, k: K, v: V)
    requires
        distinct_keys(s),
        !has_key(s, k),
    ensures
        distinct_keys(s.push((k, v))),
        keyed(s.push((k, v))) == keyed(s).insert(k, v),
{
    let t = s.push((k, v));
    assert(distinct_keys(t)) by {
        assert forall|a: int, b: int|
            #![trigger t[a], t[b]]
            0 <= a < t.len() && 0 <= b < t.len() && a != b implies t[a].0 != t[b].0 by {
            if a < s.len() && b < s.len() {
                assert(s[a].0 != s[b].0);
            } else if a < s.len() {
                assert(s[a].0 == t[a].0);
            } else {
                assert(s[b].0 == t[b].0);
            }
        }
    }
    let m = keyed(s).insert(k, v);
    assert forall|q: K| #[trigger] has_key(t, q) <==> m.contains_key(q) by {
        if has_key(t, q) {
            let j = choose|j: int| 0 <= j < t.len() && #[trigger] t[j].0 == q;
            if j < s.len() {
                assert(s[j].0 == q);
            }
        }
        if m.contains_key(q) {
            if q == k {
                assert(t[s.len() as int].0 == q);
            } else {
                let j = choose|j: int| 0 <= j < s.len() && #[trigger] s[j].0 == q;
                assert(t[j].0 == q);
            }
        }
    }
    assert forall|q: K| has_key(t, q) implies #[trigger] keyed(t)[q] == m[q] by {
        let j = choose|j: int| 0 <= j < t.len() && #[trigger] t[j].0 == q;
        lemma_slot(t, j);
        if j < s.len() {
            lemma_slot(s, j);
        }
    }
    assert(keyed(t) =~= m);
}

proof fn lemma_keyed_remove<K, V>(s: Seq<(K, V)>, i: int)
    requires
        distinct_keys(s),
        0 <= i < s.len(),
    ensures
        distinct_keys(s.remove(i)),
        keyed(s.remove(i)) == keyed(s).remove(s[i].0),
{
    let t = s.remove(i);
    assert(distinct_keys(t)) by {
        assert forall|a: int, b: int|
            #![trigger t[a], t[b]]
            0 <= a < t.len() && 0 <= b < t.len() && a != b implies t[a].0 != t[b].0 by {
            let sa = if a < i { a } else { a + 1 };
            let sb = if b < i { b } else { b + 1 };
            assert(t[a] == s[sa]);
            assert(t[b] == s[sb]);
            assert(s[sa].0 != s[sb].0);
        }
    }
    let m = keyed(s).remove(s[i].0);
    assert forall|q: K| #[trigger] has_key(t, q) <==> m.contains_key(q) by {
        if has_key(t, q) {
            let j = choose|j: int| 0 <= j < t.len() && #[trigger] t[j].0 == q;
            let sj = if j < i { j } else { j + 1 };
            assert(t[j] == s[sj]);
            assert(s[sj].0 == q);
            assert(s[sj].0 != s[i].0);
        }
        if m.contains_key(q) {
            let j = choose|j: int| 0 <= j < s.len() && #[trigger] s[j].0 == q;
            assert(j != i);
            let tj = if j < i { j } else { j - 1 };
            assert(t[tj] == s[j]);
            assert(t[tj].0 == q);
        }
    }
    assert forall|q: K| has_key(t, q) implies #[trigger] keyed(t)[q] == m[q] by {
        let j = choose|j: int| 0 <= j < t.len() && #[trigger] t[j].0 == q;
        let sj = if j < i { j } else { j + 1 };
        assert(t[j] == s[sj]);
        lemma_slot(t, j);
        lemma_slot(s, sj);
    }
    assert(keyed(t) =~= m);
}

/// A set of accounts.
pub struct AccountSet {
    items: Vec<Account>,
}

impl AccountSet {
    spec fn pairs(&self) -> Seq<(Seq<u8>, ())> {
        self.items@.map_values(|a: Account| (a@, ()))
    }

    /// No account is held twice.
    pub closed spec fn wf(&self) -> bool {
        distinct_keys(self.pairs())
    }

    fn find(&self, acct: &Account) -> (found: Option<usize>)
        ensures
            match found {
                Some(i) => i < self.items@.len() && self.pairs()[i as int].0 == acct@,
                None => !has_key(self.pairs(), acct@),
            },
    {
        let mut i: usize = 0;
        while i < self.items.len()
            invariant
                i <= self.items@.len(),
                forall|j: int| 0 <= j < i ==> #[trigger] self.pairs()[j].0 != acct@,
            decreases self.items@.len() - i,
        {
            if self.items[i].same_as(acct) {
                return Some(i);
            }
            i = i + 1;
        }
        None
    }

    /// An empty set.
    pub fn new() -> (set: AccountSet)
        ensures
            set.wf(),
            set@ == Set::<Seq<u8>>::empty(),
    {
        let set = AccountSet { items: Vec::new() };
        assert(set@ =~= Set::<Seq<u8>>::empty());
        set
    }

    /// Whether the account is in the set.
    pub fn contains(&self, acct: &Account) -> (present: bool)
        ensures
            present == self@.contains(acct@),
    {
        self.find(acct).is_some()
    }

    /// Puts the account into the set.
    pub fn insert(&mut self, acct: &Account)
        requires
            old(self).wf(),
        ensures
            final(self).wf(),
            final(self)@ == old(self)@.insert(acct@),
    {
        match self.find(acct) {
            Some(i) => {
                proof {
                    lemma_slot(self.pairs(), i as int);
                    assert(old(self)@ =~= old(self)@.insert(acct@));
                }
            },
            None => {
                let ghost before = self.pairs();
                proof {
                    lemma_keyed_push(before, acct@, ());
                }
                let copy = acct.duplicate();
                self.items.push(copy);
                proof {
                    assert(self.pairs() =~= before.push((acct@, ())));
                    assert(final(self)@ =~= old(self)@.insert(acct@)) by {
                        assert(keyed(self.pairs()) == keyed(before).insert(acct@, ()));
                    }
                }
            },
        }
    }

    /// Takes the account out of the set.
    pub fn remove(&mut self, acct: &Account)
        requires
            old(self).wf(),
        ensures
            final(self).wf(),
            final(self)@ == old(self)@.remove(acct@),
    {
        match self.find(acct) {
            Some(i) => {
                let ghost before = self.pairs();
                proof {
                    lemma_keyed_remove(before, i as int);
                }
                self.items.remove(i);
                proof {
                    assert(self.pairs() =~= before.remove(i as int));
                    assert(final(self)@ =~= old(self)@.remove(acct@)) by {
                        assert(keyed(self.pairs()) == keyed(before).remove(acct@));
                    }
                }
            },
            None => {
                proof {
                    assert(old(self)@ =~= old(self)@.remove(acct@));
                }
            },
        }
    }
}

impl View for AccountSet {
    type V = Set<Seq<u8>>;

    closed spec fn view(&self) -> Set<Seq<u8>> {
        keyed(self.pairs()).dom()
    }
}

/// The coupons in circulation, each under its number.
pub struct CouponTable {
    entries: Vec<(u32, Coupon)>,
}

impl CouponTable {
    spec fn pairs(&self) -> Seq<(u32, CouponView)> {
        self.entries@.map_values(|e: (u32, Coupon)| (e.0, e.1@))
    }

    /// No number is used twice.
    pub closed spec fn wf(&self) -> bool {
        distinct_keys(self.pairs())
    }

    fn find(&self, id: u32) -> (found: Option<usize>)
        ensures
            match found {
                Some(i) => i < self.entries@.len() && self.pairs()[i as int].0 == id,
                None => !has_key(self.pairs(), id),
            },
    {
        let mut i: usize = 0;
        while i < self.entries.len()
            invariant
                i <= self.entries@.len(),
                forall|j: int| 0 <= j < i ==> #[trigger] self.pairs()[j].0 != id,
            decreases self.entries@.len() - i,
        {
            if self.entries[i].0 == id {
                return Some(i);
            }
            i = i + 1;
        }
        None
    }

    /// A table with no coupon.
    pub fn new() -> (table: CouponTable)
        ensures
            table.wf(),
            table@ == Map::<u32, CouponView>::empty(),
    {
        let table = CouponTable { entries: Vec::new() };
        assert(table@ =~= Map::<u32, CouponView>::empty());
        table
    }

    /// The coupon stored under the number, if any.
    pub fn get(&self, id: u32) -> (coupon: Option<Coupon>)
        requires
            self.wf(),
        ensures
            coupon is Some <==> self@.contains_key(id),
            coupon matches Some(c) ==> c@ == self@[id],
    {
        match self.find(id) {
            Some(i) => {
                proof {
                    lemma_slot(self.pairs(), i as int);
                }
                Some(self.entries[i].1.duplicate())
            },
            None => None,
        }
    }

    /// Stores the coupon under the number, in place of any coupon stored there.
    pub fn set(&mut self, id: u32, coupon: Coupon)
        requires
            old(self).wf(),
        ensures
            final(self).wf(),
            final(self)@ == old(self)@.insert(id, coupon@),
    {
        let ghost before = self.pairs();
        let ghost cv = coupon@;
        match self.find(id) {
            Some(i) => {
                proof {
                    lemma_keyed_update(before, i as int, cv);
                }
                self.entries.set(i, (id, coupon));
                proof {
                    assert(self.pairs() =~= before.update(i as int, (before[i as int].0, cv)));
                }
            },
            None => {
                proof {
                    lemma_keyed_push(before, id, cv);
                }
                self.entries.push((id, coupon));
                proof {
                    assert(self.pairs() =~= before.push((id, cv)));
                }
            },
        }
    }

    /// Takes out the coupon stored under the number, if any.
    pub fn remove(&mut self, id: u32)
        requires
            old(self).wf(),
        ensures
            final(self).wf(),
            final(self)@ == old(self)@.remove(id),
    {
        let ghost before = self.pairs();
        match self.find(id) {
            Some(i) => {
                proof {
                    lemma_keyed_remove(before, i as int);
                }
                self.entries.remove(i);
                proof {
                    assert(self.pairs() =~= before.remove(i as int));
                }
            },
            None => {
                proof {
                    assert(old(self)@ =~= old(self)@.remove(id));
                }
            },
        }
    }
}

impl View for CouponTable {
    type V = Map<u32, CouponView>;

    closed spec fn view(&self) -> Map<u32, CouponView> {
        keyed(self.pairs())
    }
}

/// For each account, the numbers of the coupons it claimed, in the order claimed.
pub struct ClaimBook {
    entries: Vec<(Account, Vec<u32>)>,
}

impl ClaimBook {
    spec fn pairs(&self) -> Seq<(Seq<u8>, Seq<u32>)> {
        self.entries@.map_values(|e: (Account, Vec<u32>)| (e.0@, e.1@))
    }

    /// No account is listed twice.
    pub closed spec fn wf(&self) -> bool {
        distinct_keys(self.pairs())
    }

    fn find(&self, acct: &Account) -> (found: Option<usize>)
        ensures
            match found {
                Some(i) => i < self.entries@.len() && self.pairs()[i as int].0 == acct@,
                None => !has_key(self.pairs(), acct@),
            },
    {
        let mut i: usize = 0;
        while i < self.entries.len()
            invariant
                i <= self.entries@.len(),
                forall|j: int| 0 <= j < i ==> #[trigger] self.pairs()[j].0 != acct@,
            decreases self.entries@.len() - i,
        {
            if self.entries[i].0.same_as(acct) {
                return Some(i);
            }
            i = i + 1;
        }
        None
    }

    /// A book in which nobody has claimed anything.
    pub fn new() -> (book: ClaimBook)
        ensures
            book.wf(),
            book@ == Map::<Seq<u8>, Seq<u32>>::empty(),
    {
        let book = ClaimBook { entries: Vec::new() };
        assert(book@ =~= Map::<Seq<u8>, Seq<u32>>::empty());
        book
    }

    /// The numbers listed for the account; none when it is not in the book.
    pub fn get(&self, acct: &Account) -> (ids: Vec<u32>)
        requires
            self.wf(),
        ensures
            ids@ == claims_of(self@, acct@),
    {
        match self.find(acct) {
            Some(i) => {
                proof {
                    lemma_slot(self.pairs(), i as int);
                }
                let ids = self.entries[i].1.clone();
                assert(ids@ =~= self.entries@[i as int].1@);
                ids
            },
            None => Vec::new(),
        }
    }

    /// Adds a number at the end of the account's list.
    pub fn append(&mut self, acct: &Account, id: u32)
        requires
            old(self).wf(),
        ensures
            final(self).wf(),
            final(self)@ == old(self)@.insert(acct@, claims_of(old(self)@, acct@).push(id)),
    {
        let ghost before = self.pairs();
        match self.find(acct) {
            Some(i) => {
                proof {
                    lemma_slot(before, i as int);
                }
                let mut ids = self.entries[i].1.clone();
                assert(ids@ =~= self.entries@[i as int].1@);
                ids.push(id);
                let ghost newv = ids@;
                proof {
                    lemma_keyed_update(before, i as int, newv);
                }
                let owner = self.entries[i].0.duplicate();
                self.entries.set(i, (owner, ids));
                proof {
                    assert(self.pairs() =~= before.update(i as int, (before[i as int].0, newv)));
                }
            },
            None => {
                let ghost newv = seq![id];
                proof {
                    lemma_keyed_push(before, acct@, newv);
                }
                let mut ids: Vec<u32> = Vec::new();
                ids.push(id);
                let owner = acct.duplicate();
                self.entries.push((owner, ids));
                proof {
                    assert(self.pairs() =~= before.push((acct@, newv)));
                    assert(claims_of(old(self)@, acct@).push(id) =~= newv);
                }
            },
        }
    }
}

impl View for ClaimBook {
    type V = Map<Seq<u8>, Seq<u32>>;

    closed spec fn view(&self) -> Map<Seq<u8>, Seq<u32>> {
        keyed(self.pairs())
    }
}

/// The numbers listed for an account; none when the account is not listed.
pub open spec fn claims_of(book: Map<Seq<u8>, Seq<u32>>, acct: Seq<u8>) -> Seq<u32> {
    if book.contains_key(acct) {
        book[acct]
    } else {
        Seq::empty()
    }
}

} // verus!
