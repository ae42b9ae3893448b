//! A verified model of the key-value table service the layer runs
//! against: point put (whole-item upsert), point get, absence-tolerant
//! point delete, and equality queries on the two secondary-index
//! partition keys. The table state is a sequence of stored item views;
//! a put supersedes any earlier item under the same key pair, so reads
//! see last-write-wins at whole-item granularity.
use vstd::prelude::*;

use crate::item::{Item, ItemV};

verus! {

/// The item stored under the key pair, if any: the latest write wins.
pub open spec fn spec_get(t: Seq<ItemV>, pk: Seq<char>, sk: Seq<char>) -> Option<ItemV>
    decreases t.len(),
{
    if t.len() == 0 {
        Option::None
    } else if t.last().pk == pk && t.last().sk == sk {
        Option::Some(t.last())
    } else {
        spec_get(t.drop_last(), pk, sk)
    }
}

/// The table after a point delete: every item under the key pair is
/// removed, the rest keep their order.
pub open spec fn spec_delete(t: Seq<ItemV>, pk: Seq<char>, sk: Seq<char>) -> Seq<ItemV>
    decreases t.len(),
{
    if t.len() == 0 {
        Seq::empty()
    } else {
        let rest = spec_delete(t.drop_last(), pk, sk);
        if t.last().pk == pk && t.last().sk == sk {
            rest
        } else {
            rest.push(t.last())
        }
    }
}

/// The table after a point put: the item replaces whatever was stored
/// under its key pair.
pub open spec fn spec_put(t: Seq<ItemV>, iv: ItemV) -> Seq<ItemV> {
    spec_delete(t, iv.pk, iv.sk).push(iv)
}

/// The items whose GSI1 partition key equals `q`, in table order.
pub open spec fn spec_query_gsi1(t: Seq<ItemV>, q: Seq<char>) -> Seq<ItemV>
    decreases t.len(),
{
    if t.len() == 0 {
        Seq::empty()
    } else {
        let rest = spec_query_gsi1(t.drop_last(), q);
        if t.last().gsi1pk == Option::Some(q) {
            rest.push(t.last())
        } else {
            rest
        }
    }
}

/// The items whose GSI2 partition key equals `q`, in table order.
pub open spec fn spec_query_gsi2(t: Seq<ItemV>, q: Seq<char>) -> Seq<ItemV>
    decreases t.len(),
{
    if t.len() == 0 {
        Seq::empty()
    } else {
        let rest = spec_query_gsi2(t.drop_last(), q);
        if t.last().gsi2pk == Option::Some(q) {
            rest.push(t.last())
        } else {
            rest
        }
    }
}

/// The in-memory table.
pub struct Table {
    pub items: Vec<Item>,
}

impl Table {
    /// The table state the contracts speak of.
    pub open spec fn contents(&self) -> Seq<ItemV> {
        self.items@.map_values(|i: Item| i@)
    }

    /// An empty table.
    pub fn new() -> (t: Table)
        ensures
            t.contents() == Seq::<ItemV>::empty(),
    {
        let t = Table { items: Vec::new() };
        proof {
            assert(t.contents() =~= Seq::<ItemV>::empty());
        }
        t
    }

    /// Point read by exact key pair.
    pub fn get(&self, pk: &str, sk: &str) -> (r: Option<&Item>)
        ensures
            match r {
                Option::Some(it) => spec_get(self.contents(), pk@, sk@) == Option::Some(it@),
                Option::None => spec_get(self.contents(), pk@, sk@) is None,
            },
    {
        let pko = pk.to_owned();
        let sko = sk.to_owned();
        let mut found: Option<usize> = Option::None;
        let mut i: usize = 0;
        while i < self.items.len()
            invariant
                i <= self.items.len(),
                pko@ == pk@,
                sko@ == sk@,
                match found {
                    Option::Some(j) => j < i && spec_get(self.contents().take(i as int), pk@, sk@)
                        == Option::Some(self.contents()[j as int]),
                    Option::None => spec_get(self.contents().take(i as int), pk@, sk@) is None,
                },
            decreases self.items.len() - i,
        {
            proof {
                assert(self.contents().take(i + 1).drop_last() =~= self.contents().take(i as int));
                assert(self.contents().take(i + 1).last() == self.contents()[i as int]);
            }
            if self.items[i].pk == pko && self.items[i].sk == sko {
                found = Option::Some(i);
            }
            i += 1;
        }
        proof {
            assert(self.contents().take(self.items.len() as int) =~= self.contents());
        }
        match found {
            Option::Some(j) => Option::Some(&self.items[j]),
            Option::None => Option::None,
        }
    }

    /// Absence-tolerant point delete by exact key pair.
    pub fn delete(&mut self, pk: &str, sk: &str)
        ensures
            final(self).contents() == spec_delete(old(self).contents(), pk@, sk@),
    {
        let pko = pk.to_owned();
        let sko = sk.to_owned();
        let mut kept: Vec<Item> = Vec::new();
        let mut i: usize = 0;
        proof {
            assert(kept@.map_values(|it: Item| it@) =~= Seq::<ItemV>::empty());
            assert(self.contents().take(0) =~= Seq::<ItemV>::empty());
        }
        while i < self.items.len()
            invariant
                i <= self.items.len(),
                pko@ == pk@,
                sko@ == sk@,
                self.items@ == old(self).items@,
                kept@.map_values(|it: Item| it@) == spec_delete(
                    self.contents().take(i as int),
                    pk@,
                    sk@,
                ),
            decreases self.items.len() - i,
        {
            proof {
                assert(self.contents().take(i + 1).drop_last() =~= self.contents().take(i as int));
                assert(self.contents().take(i + 1).last() == self.contents()[i as int]);
            }
            let ghost prev = kept@.map_values(|it: Item| it@);
            if !(self.items[i].pk == pko && self.items[i].sk == sko) {
                let copy = self.items[i].clone();
                kept.push(copy);
                proof {
                    assert(kept@.map_values(|it: Item| it@) =~= prev.push(
                        self.contents()[i as int],
                    ));
                }
            }
            i += 1;
        }
        proof {
            assert(self.contents().take(self.items.len() as int) =~= self.contents());
        }
        self.items = kept;
    }

    /// Point put: whole-item upsert under the item's key pair.
    pub fn put(&mut self, item: Item)
        ensures
            final(self).contents() == spec_put(old(self).contents(), item@),
    {
        let pk = item.pk.clone();
        let sk = item.sk.clone();
        self.delete(pk.as_str(), sk.as_str());
        let ghost after_delete = self.contents();
        self.items.push(item);
        proof {
            assert(self.contents() =~= after_delete.push(item@));
        }
    }

    /// Equality query on the GSI1 partition key.
    pub fn query_gsi1(&self, q: &str) -> (r: Vec<Item>)
        ensures
            r@.map_values(|it: Item| it@) == spec_query_gsi1(self.contents(), q@),
    {
        let qo = q.to_owned();
        let mut out: Vec<Item> = Vec::new();
        let mut i: usize = 0;
        proof {
            assert(out@.map_values(|it: Item| it@) =~= Seq::<ItemV>::empty());
            assert(self.contents().take(0) =~= Seq::<ItemV>::empty());
        }
        while i < self.items.len()
            invariant
                i <= self.items.len(),
                qo@ == q@,
                out@.map_values(|it: Item| it@) == spec_query_gsi1(
                    self.contents().take(i as int),
                    q@,
                ),
            decreases self.items.len() - i,
        {
            proof {
                assert(self.contents().take(i + 1).drop_last() =~= self.contents().take(i as int));
                assert(self.contents().take(i + 1).last() == self.contents()[i as int]);
            }
            let ghost prev = out@.map_values(|it: Item| it@);
            let hit = match &self.items[i].gsi1pk {
                Option::Some(g) => *g == qo,
                Option::None => false,
            };
            if hit {
                let copy = self.items[i].clone();
                out.push(copy);
                proof {
                    assert(out@.map_values(|it: Item| it@) =~= prev.push(self.contents()[i as int]));
                }
            }
            i += 1;
        }
        proof {
            assert(self.contents().take(self.items.len() as int) =~= self.contents());
        }
        out
    }

    /// Equality query on the GSI2 partition key.
    pub fn query_gsi2(&self, q: &str) -> (r: Vec<Item>)
        ensures
            r@.map_values(|it: Item| it@) == spec_query_gsi2(self.contents(), q@),
    {
        let qo = q.to_owned();
        let mut out: Vec<Item> = Vec::new();
        let mut i: usize = 0;
        proof {
            assert(out@.map_values(|it: Item| it@) =~= Seq::<ItemV>::empty());
            assert(self.contents().take(0) =~= Seq::<ItemV>::empty());
        }
        while i < self.items.len()
            invariant
                i <= self.items.len(),
                qo@ == q@,
                out@.map_values(|it: Item| it@) == spec_query_gsi2(
                    self.contents().take(i as int),
                    q@,
                ),
            decreases self.items.len() - i,
        {
            proof {
                assert(self.contents().take(i + 1).drop_last() =~= self.contents().take(i as int));
                assert(self.contents().take(i + 1).last() == self.contents()[i as int]);
            }
            let ghost prev = out@.map_values(|it: Item| it@);
            let hit = match &self.items[i].gsi2pk {
                Option::Some(g) => *g == qo,
                Option::None => false,
            };
            if hit {
                let copy = self.items[i].clone();
                out.push(copy);
                proof {
                    assert(out@.map_values(|it: Item| it@) =~= prev.push(self.contents()[i as int]));
                }
            }
            i += 1;
        }
        proof {
            assert(self.contents().take(self.items.len() as int) =~= self.contents());
        }
        out
    }
}

/// Reading through a delete: the deleted key pair reads as absent, every
/// other key pair reads as before.
pub proof fn lemma_get_delete(
    t: Seq<ItemV>,
    dpk: Seq<char>,
    dsk: Seq<char>,
    pk: Seq<char>,
    sk: Seq<char>,
)
    ensures
        spec_get(spec_delete(t, dpk, dsk), pk, sk) == if pk == dpk && sk == dsk {
            Option::<ItemV>::None
        } else {
            spec_get(t, pk, sk)
        },
    decreases t.len(),
{
    if t.len() > 0 {
        lemma_get_delete(t.drop_last(), dpk, dsk, pk, sk);
        let rest = spec_delete(t.drop_last(), dpk, dsk);
        if !(t.last().pk == dpk && t.last().sk == dsk) {
            assert(rest.push(t.last()).drop_last() =~= rest);
            assert(rest.push(t.last()).last() == t.last());
        }
    }
}

/// Reading through a put: the put key pair reads as the new item, every
/// other key pair reads as before.
pub proof fn lemma_get_put(t: Seq<ItemV>, iv: ItemV, pk: Seq<char>, sk: Seq<char>)
    ensures
        spec_get(spec_put(t, iv), pk, sk) == if pk == iv.pk && sk == iv.sk {
            Option::Some(iv)
        } else {
            spec_get(t, pk, sk)
        },
{
    let d = spec_delete(t, iv.pk, iv.sk);
    assert(d.push(iv).drop_last() =~= d);
    assert(d.push(iv).last() == iv);
    lemma_get_delete(t, iv.pk, iv.sk, pk, sk);
}

/// A key pair reads as absent exactly when no stored item carries it.
pub proof fn lemma_get_none_iff(t: Seq<ItemV>, pk: Seq<char>, sk: Seq<char>)
    ensures
        (spec_get(t, pk, sk) is None) <==> (forall|j: int|
            0 <= j < t.len() ==> !(t[j].pk == pk && t[j].sk == sk)),
    decreases t.len(),
{
    if t.len() > 0 {
        lemma_get_none_iff(t.drop_last(), pk, sk);
        assert(forall|j: int| 0 <= j < t.len() - 1 ==> t.drop_last()[j] == t[j]);
        assert(t.last() == t[t.len() - 1]);
    }
}

/// Deleting an absent key pair is a no-op.
pub proof fn lemma_delete_absent(t: Seq<ItemV>, pk: Seq<char>, sk: Seq<char>)
    requires
        spec_get(t, pk, sk) is None,
    ensures
        spec_delete(t, pk, sk) == t,
    decreases t.len(),
{
    if t.len() > 0 {
        lemma_delete_absent(t.drop_last(), pk, sk);
        assert(t.drop_last().push(t.last()) =~= t);
    }
}

/// Deleting twice is the same as deleting once.
pub proof fn lemma_delete_idempotent(t: Seq<ItemV>, pk: Seq<char>, sk: Seq<char>)
    ensures
        spec_delete(spec_delete(t, pk, sk), pk, sk) == spec_delete(t, pk, sk),
{
    lemma_get_delete(t, pk, sk, pk, sk);
    lemma_delete_absent(spec_delete(t, pk, sk), pk, sk);
}

/// Whether `x` occurs in the table state `t`.
pub open spec fn stored_in(x: ItemV, t: Seq<ItemV>) -> bool {
    exists|m: int| 0 <= m < t.len() && t[m] == x
}

/// A delete introduces no item: everything stored afterwards was stored
/// before.
pub proof fn lemma_delete_items_subset(t: Seq<ItemV>, pk: Seq<char>, sk: Seq<char>)
    ensures
        forall|j: int|
            0 <= j < spec_delete(t, pk, sk).len() ==> #[trigger] stored_in(
                spec_delete(t, pk, sk)[j],
                t,
            ),
    decreases t.len(),
{
    if t.len() > 0 {
        lemma_delete_items_subset(t.drop_last(), pk, sk);
        let d = spec_delete(t, pk, sk);
        let rest = spec_delete(t.drop_last(), pk, sk);
        assert forall|j: int| 0 <= j < d.len() implies #[trigger] stored_in(d[j], t) by {
            if j < rest.len() {
                assert(d[j] == rest[j]);
                assert(stored_in(rest[j], t.drop_last()));
                let m = choose|m: int| 0 <= m < t.drop_last().len() && t.drop_last()[m] == rest[j];
                assert(t.drop_last()[m] == t[m]);
                assert(0 <= m < t.len() && t[m] == d[j]);
            } else {
                assert(d[j] == t.last());
                assert(t[t.len() - 1] == t.last());
            }
        }
    }
}

/// A GSI1 query over a table with no matching item is empty.
pub proof fn lemma_query_gsi1_none(t: Seq<ItemV>, q: Seq<char>)
    requires
        forall|j: int| 0 <= j < t.len() ==> t[j].gsi1pk != Option::Some(q),
    ensures
        spec_query_gsi1(t, q) == Seq::<ItemV>::empty(),
    decreases t.len(),
{
    if t.len() > 0 {
        assert(forall|j: int| 0 <= j < t.len() - 1 ==> t.drop_last()[j] == t[j]);
        assert(t.last() == t[t.len() - 1]);
        lemma_query_gsi1_none(t.drop_last(), q);
    }
}

} // verus!
