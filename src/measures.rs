use vstd::prelude::*;

verus! {

/// The control measures in force in one region: each name maps to the level
/// that is applied. A name that is absent is not applied.
pub struct ActiveControlMeasures {
    entries: Vec<(String, i32)>,
    contents: Ghost<Map<Seq<char>, i32>>,
}

spec fn consistent(es: Seq<(String, i32)>, c: Map<Seq<char>, i32>) -> bool {
    &&& forall|i: int, j: int| 0 <= i < j < es.len() ==> es[i].0@ != es[j].0@
    &&& forall|i: int|
        0 <= i < es.len() ==> #[trigger] c.contains_key(es[i].0@) && c[es[i].0@] == es[i].1
    &&& forall|k: Seq<char>|
        #[trigger] c.contains_key(k) ==> exists|i: int| 0 <= i < es.len() && es[i].0@ == k
}

impl View for ActiveControlMeasures {
    type V = Map<Seq<char>, i32>;

    closed spec fn view(&self) -> Map<Seq<char>, i32> {
        self.contents@
    }
}

impl ActiveControlMeasures {
    #[verifier::type_invariant]
    closed spec fn inv(&self) -> bool {
        consistent(self.entries@, self.contents@)
    }

    pub fn new() -> (r: ActiveControlMeasures)
        ensures
            r@ == Map::<Seq<char>, i32>::empty(),
    {
        ActiveControlMeasures { entries: Vec::new(), contents: Ghost(Map::empty()) }
    }

    fn find(&self, name: &String) -> (r: Option<usize>)
        ensures
            match r {
                Some(i) => i < self.entries@.len() && self.entries@[i as int].0@ == name@,
                None => forall|i: int|
                    0 <= i < self.entries@.len() ==> self.entries@[i].0@ != name@,
            },
    {
        let mut i: usize = 0;
        while i < self.entries.len()
            invariant
                i <= self.entries@.len(),
                forall|j: int| 0 <= j < i ==> self.entries@[j].0@ != name@,
            decreases self.entries@.len() - i,
        {
            if self.entries[i].0 == *name {
                return Some(i);
            }
            i = i + 1;
        }
        None
    }

    fn take_entries(&mut self) -> (r: Vec<(String, i32)>)
        ensures
            r@ == old(self).entries@,
            final(self)@ == Map::<Seq<char>, i32>::empty(),
    {
        let mut taken = ActiveControlMeasures::new();
        std::mem::swap(self, &mut taken);
        let ActiveControlMeasures { entries, contents: _ } = taken;
        entries
    }

    /// The level at which `name` is applied, if it is.
    pub fn get(&self, name: &String) -> (r: Option<i32>)
        ensures
            r == (if self@.contains_key(name@) {
                Some(self@[name@])
            } else {
                None::<i32>
            }),
    {
        proof {
            use_type_invariant(self);
        }
        match self.find(name) {
            Some(i) => Some(self.entries[i].1),
            None => None,
        }
    }

    /// Records that `name` is applied at `level`.
    pub fn set(&mut self, name: &String, level: i32)
        ensures
            final(self)@ == old(self)@.insert(name@, level),
    {
        proof {
            use_type_invariant(&*self);
        }
        let ghost oe = self.entries@;
        let ghost oc = self.contents@;
        let ghost nc = oc.insert(name@, level);
        let found = self.find(name);
        let mut entries = self.take_entries();
        match found {
            Some(i) => {
                entries.set(i, (name.clone(), level));
                proof {
                    assert forall|a: int, b: int|
                        0 <= a < b < entries@.len() implies entries@[a].0@ != entries@[b].0@ by {
                        assert(entries@[a].0@ == oe[a].0@);
                        assert(entries@[b].0@ == oe[b].0@);
                    }
                    assert forall|j: int| 0 <= j < entries@.len() implies #[trigger]
                        nc.contains_key(entries@[j].0@) && nc[entries@[j].0@] == entries@[j].1 by {
                        if j != i {
                            assert(entries@[j] == oe[j]);
                            assert(oc.contains_key(oe[j].0@));
                        }
                    }
                    assert forall|k: Seq<char>| #[trigger] nc.contains_key(k) implies exists|j: int|
                        0 <= j < entries@.len() && entries@[j].0@ == k by {
                        if k != name@ {
                            assert(oc.contains_key(k));
                            let j = choose|j: int| 0 <= j < oe.len() && oe[j].0@ == k;
                            assert(entries@[j].0@ == k);
                        } else {
                            assert(entries@[i as int].0@ == k);
                        }
                    }
                }
                assert(consistent(entries@, nc));
                *self = ActiveControlMeasures { entries, contents: Ghost(nc) };
            },
            None => {
                entries.push((name.clone(), level));
                proof {
                    assert forall|a: int, b: int|
                        0 <= a < b < entries@.len() implies entries@[a].0@ != entries@[b].0@ by {
                        assert(entries@[a].0@ == oe[a].0@);
                        if b < oe.len() {
                            assert(entries@[b].0@ == oe[b].0@);
                        }
                    }
                    assert forall|j: int| 0 <= j < entries@.len() implies #[trigger]
                        nc.contains_key(entries@[j].0@) && nc[entries@[j].0@] == entries@[j].1 by {
                        if j < oe.len() {
                            assert(entries@[j] == oe[j]);
                            assert(oc.contains_key(oe[j].0@));
                        }
                    }
                    assert forall|k: Seq<char>| #[trigger] nc.contains_key(k) implies exists|j: int|
                        0 <= j < entries@.len() && entries@[j].0@ == k by {
                        if k != name@ {
                            assert(oc.contains_key(k));
                            let j = choose|j: int| 0 <= j < oe.len() && oe[j].0@ == k;
                            assert(entries@[j].0@ == k);
                        } else {
                            assert(entries@[oe.len() as int].0@ == k);
                        }
                    }
                }
                assert(consistent(entries@, nc));
                *self = ActiveControlMeasures { entries, contents: Ghost(nc) };
            },
        }
    }

    /// Records that `name` is no longer applied.
    pub fn remove(&mut self, name: &String)
        ensures
            final(self)@ == old(self)@.remove(name@),
    {
        proof {
            use_type_invariant(&*self);
        }
        let ghost oe = self.entries@;
        let ghost oc = self.contents@;
        let ghost nc = oc.remove(name@);
        let found = self.find(name);
        match found {
            Some(i) => {
                let mut entries = self.take_entries();
                entries.remove(i);
                proof {
                    assert forall|a: int, b: int|
                        0 <= a < b < entries@.len() implies entries@[a].0@ != entries@[b].0@ by {
                        let a0 = if a < i { a } else { a + 1 };
                        let b0 = if b < i { b } else { b + 1 };
                        assert(entries@[a] == oe[a0]);
                        assert(entries@[b] == oe[b0]);
                    }
                    assert forall|j: int| 0 <= j < entries@.len() implies #[trigger]
                        nc.contains_key(entries@[j].0@) && nc[entries@[j].0@] == entries@[j].1 by {
                        let j0 = if j < i { j } else { j + 1 };
                        assert(entries@[j] == oe[j0]);
                        assert(oe[j0].0@ != oe[i as int].0@);
                        assert(oc.contains_key(oe[j0].0@));
                    }
                    assert forall|k: Seq<char>| #[trigger] nc.contains_key(k) implies exists|j: int|
                        0 <= j < entries@.len() && entries@[j].0@ == k by {
                        assert(oc.contains_key(k));
                        let j0 = choose|j: int| 0 <= j < oe.len() && oe[j].0@ == k;
                        assert(j0 != i);
                        let j = if j0 < i { j0 } else { j0 - 1 };
                        assert(entries@[j] == oe[j0]);
                    }
                }
                assert(consistent(entries@, nc));
                *self = ActiveControlMeasures { entries, contents: Ghost(nc) };
            },
            None => {
                proof {
                    if oc.contains_key(name@) {
                        let j = choose|j: int| 0 <= j < oe.len() && oe[j].0@ == name@;
                        assert(oe[j].0@ != name@);
                    }
                    assert(nc =~= oc);
                }
            },
        }
    }


    /// A copy of the measures.
    pub fn duplicate(&self) -> (r: ActiveControlMeasures)
        ensures
            r@ == self@,
    {
        proof {
            use_type_invariant(self);
        }
        let mut r = ActiveControlMeasures::new();
        let mut i: usize = 0;
        while i < self.entries.len()
            invariant
                i <= self.entries@.len(),
                consistent(self.entries@, self.contents@),
                forall|k: Seq<char>| #[trigger] r@.contains_key(k) <==> exists|j: int| 0 <= j < i && self.entries@[j].0@ == k,
                forall|k: Seq<char>| #[trigger] r@.contains_key(k) ==> r@[k] == self.contents@[k],
            decreases self.entries@.len() - i,
        {
            let ghost before = r@;
            r.set(&self.entries[i].0, self.entries[i].1);
            proof {
                assert forall|k: Seq<char>| #[trigger] r@.contains_key(k) <==> exists|j: int| 0 <= j < i + 1 && self.entries@[j].0@ == k by {
                    if k == self.entries@[i as int].0@ {
                        assert(r@.contains_key(k));
                    } else if r@.contains_key(k) {
                        assert(before.contains_key(k));
                    } else {
                        if exists|j: int| 0 <= j < i + 1 && self.entries@[j].0@ == k {
                            let j = choose|j: int| 0 <= j < i + 1 && self.entries@[j].0@ == k;
                            assert(before.contains_key(k));
                        }
                    }
                }
                assert(self.contents@.contains_key(self.entries@[i as int].0@));
            }
            i = i + 1;
        }
        proof {
            assert forall|k: Seq<char>| r@.contains_key(k) <==> self.contents@.contains_key(k) by {
                if r@.contains_key(k) {
                    let j = choose|j: int| 0 <= j < self.entries@.len() && self.entries@[j].0@ == k;
                    assert(self.contents@.contains_key(self.entries@[j].0@));
                }
            }
            assert(r@ =~= self.contents@);
        }
        r
    }

    /// The name and level of each measure in force, in the order they were
    /// first applied; each name appears once.
    pub fn entries(&self) -> (r: Vec<(String, i32)>)
        ensures
            forall|i: int|
                0 <= i < r@.len() ==> #[trigger] self@.contains_key(r@[i].0@) && self@[r@[i].0@]
                    == r@[i].1,
            forall|k: Seq<char>|
                #[trigger] self@.contains_key(k) ==> exists|i: int| 0 <= i < r@.len() && r@[i].0@ == k,
            forall|i: int, j: int| 0 <= i < j < r@.len() ==> r@[i].0@ != r@[j].0@,
    {
        proof {
            use_type_invariant(self);
        }
        let mut r: Vec<(String, i32)> = Vec::new();
        let mut i: usize = 0;
        while i < self.entries.len()
            invariant
                i <= self.entries@.len(),
                r@.len() == i,
                forall|j: int| 0 <= j < i ==> #[trigger] r@[j].0@ == self.entries@[j].0@ && r@[j].1 == self.entries@[j].1,
            decreases self.entries@.len() - i,
        {
            let name = self.entries[i].0.clone();
            r.push((name, self.entries[i].1));
            i = i + 1;
        }
        proof {
            assert forall|k: Seq<char>| #[trigger] self@.contains_key(k) implies exists|i: int| 0 <= i < r@.len() && r@[i].0@ == k by {
                let j = choose|j: int| 0 <= j < self.entries@.len() && self.entries@[j].0@ == k;
                assert(r@[j].0@ == k);
            }
            assert forall|a: int, b: int| 0 <= a < b < r@.len() implies r@[a].0@ != r@[b].0@ by {
                assert(r@[a].0@ == self.entries@[a].0@);
                assert(r@[b].0@ == self.entries@[b].0@);
            }
            assert forall|j: int| 0 <= j < r@.len() implies #[trigger] self@.contains_key(r@[j].0@) && self@[r@[j].0@] == r@[j].1 by {
                assert(r@[j].0@ == self.entries@[j].0@);
            }
        }
        r
    }
}

/// The measures of each row, in order, for the rows of `rows` before
/// index `n` whose region is `region`.
pub open spec fn group_upto(rows: Seq<(i32, ActiveControlMeasures)>, region: i32, n: int) -> Seq<
    Map<Seq<char>, i32>,
>
    decreases n,
{
    if n <= 0 || n > rows.len() {
        Seq::empty()
    } else if rows[n - 1].0 == region {
        group_upto(rows, region, n - 1).push(rows[n - 1].1@)
    } else {
        group_upto(rows, region, n - 1)
    }
}

pub open spec fn views(ms: Seq<ActiveControlMeasures>) -> Seq<Map<Seq<char>, i32>> {
    ms.map_values(|m: ActiveControlMeasures| m@)
}

fn position_of(keys: &Vec<i32>, k: i32) -> (r: Option<usize>)
    ensures
        match r {
            Some(a) => a < keys@.len() && keys@[a as int] == k,
            None => forall|a: int| 0 <= a < keys@.len() ==> keys@[a] != k,
        },
{
    let mut a: usize = 0;
    while a < keys.len()
        invariant
            a <= keys@.len(),
            forall|b: int| 0 <= b < a ==> keys@[b] != k,
        decreases keys@.len() - a,
    {
        if keys[a] == k {
            return Some(a);
        }
        a = a + 1;
    }
    None
}

pub open spec fn lists(keys: Seq<i32>, k: i32) -> bool {
    exists|a: int| 0 <= a < keys.len() && keys[a] == k
}

/// Some row before index `n` is for region `k`.
pub open spec fn has_rows_upto(rows: Seq<(i32, ActiveControlMeasures)>, k: i32, n: int) -> bool {
    exists|j: int| 0 <= j < n && rows[j].0 == k
}

pub open spec fn has_group(groups: Seq<(i32, Vec<ActiveControlMeasures>)>, k: i32) -> bool {
    exists|a: int| 0 <= a < groups.len() && groups[a].0 == k
}

fn distinct_regions(rows: &Vec<(i32, ActiveControlMeasures)>) -> (keys: Vec<i32>)
    ensures
        forall|a: int, b: int| 0 <= a < b < keys@.len() ==> keys@[a] != keys@[b],
        forall|j: int| 0 <= j < rows@.len() ==> lists(keys@, #[trigger] rows@[j].0),
        forall|a: int| 0 <= a < keys@.len() ==> has_rows_upto(rows@, #[trigger] keys@[a], rows@.len() as int),
{
    let mut keys: Vec<i32> = Vec::new();
    let mut n: usize = 0;
    while n < rows.len()
        invariant
            n <= rows@.len(),
            forall|a: int, b: int| 0 <= a < b < keys@.len() ==> keys@[a] != keys@[b],
            forall|j: int| 0 <= j < n ==> lists(keys@, #[trigger] rows@[j].0),
            forall|a: int| 0 <= a < keys@.len() ==> has_rows_upto(rows@, #[trigger] keys@[a], n as int),
        decreases rows@.len() - n,
    {
        let k = rows[n].0;
        let ghost before = keys@;
        if position_of(&keys, k).is_none() {
            keys.push(k);
            assert(keys@[before.len() as int] == k);
        }
        proof {
            assert(lists(keys@, k));
            assert forall|j: int| 0 <= j < n + 1 implies lists(keys@, #[trigger] rows@[j].0) by {
                if j < n {
                    assert(lists(before, rows@[j].0));
                    let a0 = choose|a: int| 0 <= a < before.len() && before[a] == rows@[j].0;
                    assert(keys@[a0] == before[a0]);
                }
            }
            assert forall|a: int| 0 <= a < keys@.len() implies has_rows_upto(rows@, #[trigger] keys@[a], n + 1) by {
                if a < before.len() {
                    assert(keys@[a] == before[a]);
                    assert(has_rows_upto(rows@, before[a], n as int));
                    let j0 = choose|j: int| 0 <= j < n && rows@[j].0 == before[a];
                    assert(rows@[j0].0 == keys@[a]);
                } else {
                    assert(rows@[n as int].0 == keys@[a]);
                }
            }
        }
        n = n + 1;
    }
    keys
}

fn group_for(rows: &Vec<(i32, ActiveControlMeasures)>, region: i32) -> (g: Vec<ActiveControlMeasures>)
    ensures
        views(g@) == group_upto(rows@, region, rows@.len() as int),
{
    let mut g: Vec<ActiveControlMeasures> = Vec::new();
    let mut n: usize = 0;
    while n < rows.len()
        invariant
            n <= rows@.len(),
            views(g@) == group_upto(rows@, region, n as int),
        decreases rows@.len() - n,
    {
        if rows[n].0 == region {
            let ghost before = g@;
            g.push(rows[n].1.duplicate());
            assert(views(g@) =~= views(before).push(rows@[n as int].1@));
        }
        n = n + 1;
    }
    g
}

/// The measures of each region, gathered from rows of region id and
/// measures: one group per region id, in the order the ids first occur, each
/// group holding that region's measures in the order of the rows.
pub fn get_acm_map_from_db_res(acm_tuples: &Vec<(i32, ActiveControlMeasures)>) -> (r: Vec<
    (i32, Vec<ActiveControlMeasures>),
>)
    ensures
        forall|a: int, b: int| 0 <= a < b < r@.len() ==> r@[a].0 != r@[b].0,
        forall|a: int|
            0 <= a < r@.len() ==> views(#[trigger] r@[a].1@) == group_upto(
                acm_tuples@,
                r@[a].0,
                acm_tuples@.len() as int,
            ),
        forall|j: int| 0 <= j < acm_tuples@.len() ==> has_group(r@, #[trigger] acm_tuples@[j].0),
        forall|a: int|
            0 <= a < r@.len() ==> has_rows_upto(acm_tuples@, #[trigger] r@[a].0, acm_tuples@.len() as int),
{
    let keys = distinct_regions(acm_tuples);
    let mut out: Vec<(i32, Vec<ActiveControlMeasures>)> = Vec::new();
    let mut i: usize = 0;
    while i < keys.len()
        invariant
            i <= keys@.len(),
            out@.len() == i,
            forall|a: int| 0 <= a < i ==> (#[trigger] out@[a]).0 == keys@[a],
            forall|a: int|
                0 <= a < i ==> views(#[trigger] out@[a].1@) == group_upto(
                    acm_tuples@,
                    out@[a].0,
                    acm_tuples@.len() as int,
                ),
        decreases keys@.len() - i,
    {
        let k = keys[i];
        let g = group_for(acm_tuples, k);
        out.push((k, g));
        i = i + 1;
    }
    proof {
        assert forall|j: int| 0 <= j < acm_tuples@.len() implies has_group(out@, #[trigger] acm_tuples@[j].0) by {
            assert(lists(keys@, acm_tuples@[j].0));
            let a0 = choose|a: int| 0 <= a < keys@.len() && keys@[a] == acm_tuples@[j].0;
            assert(out@[a0].0 == keys@[a0]);
        }
        assert forall|a: int| 0 <= a < out@.len() implies has_rows_upto(acm_tuples@, #[trigger] out@[a].0, acm_tuples@.len() as int) by {
            assert(out@[a].0 == keys@[a]);
        }
        assert forall|a: int, b: int| 0 <= a < b < out@.len() implies out@[a].0 != out@[b].0 by {
            assert(out@[a].0 == keys@[a]);
            assert(out@[b].0 == keys@[b]);
        }
    }
    out
}

} // verus!
