use vstd::prelude::*;

use crate::model::{vars_view, Variable, VariableV};
use crate::util::str_eq;

verus! {

/// Mathematical shape of the name-to-fields mapping: the entries in
/// insertion order.
pub type StructMapV = Seq<(Seq<char>, Seq<VariableV>)>;

/// Inserting under a name that is already present replaces that entry's
/// fields in place; a new name goes to the end. Last write wins.
pub open spec fn map_insert(m: StructMapV, name: Seq<char>, vars: Seq<VariableV>) -> StructMapV
    decreases m.len(),
{
    if m.len() == 0 {
        seq![(name, vars)]
    } else if m[0].0 == name {
        seq![(name, vars)] + m.drop_first()
    } else {
        seq![m[0]] + map_insert(m.drop_first(), name, vars)
    }
}

/// The fields stored under a name: those of the first entry carrying it.
pub open spec fn map_get(m: StructMapV, name: Seq<char>) -> Option<Seq<VariableV>>
    decreases m.len(),
{
    if m.len() == 0 {
        None
    } else if m[0].0 == name {
        Some(m[0].1)
    } else {
        map_get(m.drop_first(), name)
    }
}

pub proof fn lemma_map_insert_at(m: StructMapV, name: Seq<char>, vars: Seq<VariableV>, i: int)
    requires
        0 <= i < m.len(),
        m[i].0 == name,
        forall|j: int| 0 <= j < i ==> m[j].0 != name,
    ensures
        map_insert(m, name, vars) =~= m.update(i, (name, vars)),
    decreases i,
{
    if i == 0 {
    } else {
        assert(m[0].0 != name);
        lemma_map_insert_at(m.drop_first(), name, vars, i - 1);
    }
}

pub proof fn lemma_map_insert_absent(m: StructMapV, name: Seq<char>, vars: Seq<VariableV>)
    requires
        forall|j: int| 0 <= j < m.len() ==> m[j].0 != name,
    ensures
        map_insert(m, name, vars) =~= m.push((name, vars)),
    decreases m.len(),
{
    if m.len() == 0 {
    } else {
        assert(m[0].0 != name);
        lemma_map_insert_absent(m.drop_first(), name, vars);
    }
}

/// Whether some entry of the mapping carries the given name.
pub open spec fn map_has_key(m: StructMapV, name: Seq<char>) -> bool {
    exists|i: int| 0 <= i < m.len() && #[trigger] m[i].0 == name
}

/// No two entries of the mapping carry the same name.
pub open spec fn keys_distinct(m: StructMapV) -> bool {
    forall|i: int, j: int| 0 <= i < j < m.len() ==> #[trigger] m[i].0 != #[trigger] m[j].0
}

pub proof fn lemma_map_insert_has_key(
    m: StructMapV,
    name: Seq<char>,
    vars: Seq<VariableV>,
    k: Seq<char>,
)
    ensures
        map_has_key(map_insert(m, name, vars), k) <==> (k == name || map_has_key(m, k)),
    decreases m.len(),
{
    let r = map_insert(m, name, vars);
    if m.len() == 0 {
        assert(r[0].0 == name);
        if map_has_key(r, k) {
            assert(k == name);
        }
    } else if m[0].0 == name {
        if map_has_key(r, k) {
            let i = choose|i: int| 0 <= i < r.len() && r[i].0 == k;
            if i == 0 {
            } else {
                assert(m[i].0 == k);
            }
        }
        if k == name || map_has_key(m, k) {
            if k == name {
                assert(r[0].0 == k);
            } else {
                let i = choose|i: int| 0 <= i < m.len() && m[i].0 == k;
                assert(i != 0);
                assert(r[i].0 == k);
            }
        }
    } else {
        lemma_map_insert_has_key(m.drop_first(), name, vars, k);
        let tail = map_insert(m.drop_first(), name, vars);
        assert(r =~= seq![m[0]] + tail);
        if map_has_key(r, k) {
            let i = choose|i: int| 0 <= i < r.len() && r[i].0 == k;
            if i == 0 {
                assert(m[0].0 == k);
            } else {
                assert(tail[i - 1].0 == k);
                assert(map_has_key(tail, k));
            }
        }
        if k == name || map_has_key(m, k) {
            if k == name {
                assert(map_has_key(tail, k));
                let i = choose|i: int| 0 <= i < tail.len() && tail[i].0 == k;
                assert(r[i + 1].0 == k);
            } else {
                let i = choose|i: int| 0 <= i < m.len() && m[i].0 == k;
                if i == 0 {
                    assert(r[0].0 == k);
                } else {
                    assert(m.drop_first()[i - 1].0 == k);
                    assert(map_has_key(m.drop_first(), k));
                    assert(map_has_key(tail, k));
                    let t = choose|t: int| 0 <= t < tail.len() && tail[t].0 == k;
                    assert(r[t + 1].0 == k);
                }
            }
        }
    }
}

/// Inserting keeps the names of the mapping's entries pairwise distinct.
pub proof fn lemma_map_insert_keys_distinct(m: StructMapV, name: Seq<char>, vars: Seq<VariableV>)
    requires
        keys_distinct(m),
    ensures
        keys_distinct(map_insert(m, name, vars)),
    decreases m.len(),
{
    let r = map_insert(m, name, vars);
    if m.len() == 0 {
    } else if m[0].0 == name {
        assert(r =~= seq![(name, vars)] + m.drop_first());
        assert forall|i: int, j: int| 0 <= i < j < r.len() implies r[i].0 != r[j].0 by {
            if i == 0 {
                assert(m[0].0 != m[j].0);
                assert(r[j].0 == m[j].0);
            } else {
                assert(r[i].0 == m[i].0 && r[j].0 == m[j].0);
            }
        }
    } else {
        assert forall|i: int, j: int| 0 <= i < j < m.drop_first().len() implies m.drop_first()[i].0
            != m.drop_first()[j].0 by {
            assert(m[i + 1].0 != m[j + 1].0);
        }
        lemma_map_insert_keys_distinct(m.drop_first(), name, vars);
        let tail = map_insert(m.drop_first(), name, vars);
        assert(r =~= seq![m[0]] + tail);
        assert forall|i: int, j: int| 0 <= i < j < r.len() implies r[i].0 != r[j].0 by {
            if i == 0 {
                lemma_map_insert_has_key(m.drop_first(), name, vars, m[0].0);
                assert(tail[j - 1].0 == r[j].0);
                if r[j].0 == m[0].0 {
                    assert(map_has_key(tail, m[0].0));
                    assert(m[0].0 == name || map_has_key(m.drop_first(), m[0].0));
                    if map_has_key(m.drop_first(), m[0].0) {
                        let u = choose|u: int|
                            0 <= u < m.drop_first().len() && m.drop_first()[u].0 == m[0].0;
                        assert(m[u + 1].0 == m[0].0);
                    }
                }
            } else {
                assert(tail[i - 1].0 != tail[j - 1].0);
            }
        }
    }
}

pub proof fn lemma_map_get_at(m: StructMapV, name: Seq<char>, i: int)
    requires
        0 <= i < m.len(),
        m[i].0 == name,
        forall|j: int| 0 <= j < i ==> m[j].0 != name,
    ensures
        map_get(m, name) == Some(m[i].1),
    decreases i,
{
    if i == 0 {
    } else {
        assert(m[0].0 != name);
        lemma_map_get_at(m.drop_first(), name, i - 1);
    }
}

pub proof fn lemma_map_get_absent(m: StructMapV, name: Seq<char>)
    requires
        forall|j: int| 0 <= j < m.len() ==> m[j].0 != name,
    ensures
        map_get(m, name) is None,
    decreases m.len(),
{
    if m.len() == 0 {
    } else {
        assert(m[0].0 != name);
        lemma_map_get_absent(m.drop_first(), name);
    }
}

/// An order-preserving mapping from declaration names to their fields:
/// entries keep first-insertion order, and re-inserting a name replaces its
/// fields. This is the accumulator of one extraction pass.
#[derive(Debug, Clone, PartialEq, Eq)]
pub struct StructMap {
    pub entries: Vec<(String, Vec<Variable>)>,
}

impl View for StructMap {
    type V = StructMapV;

    open spec fn view(&self) -> StructMapV {
        self.entries@.map_values(|e: (String, Vec<Variable>)| (e.0@, vars_view(e.1@)))
    }
}

impl StructMap {
    pub fn new() -> (r: Self)
        ensures
            r@ == Seq::<(Seq<char>, Seq<VariableV>)>::empty(),
    {
        let r = StructMap { entries: Vec::new() };
        proof {
            assert(r@ =~= Seq::<(Seq<char>, Seq<VariableV>)>::empty());
        }
        r
    }

    pub fn len(&self) -> (n: usize)
        ensures
            n == self@.len(),
    {
        self.entries.len()
    }

    pub fn insert(&mut self, name: String, vars: Vec<Variable>)
        ensures
            final(self)@ == map_insert(old(self)@, name@, vars_view(vars@)),
    {
        let ghost namev = name@;
        let ghost varsv = vars_view(vars@);
        let n = self.entries.len();
        let mut i: usize = 0;
        while i < n
            invariant
                *self == *old(self),
                n == self.entries@.len(),
                i <= n,
                namev == name@,
                varsv == vars_view(vars@),
                forall|j: int| 0 <= j < i ==> self@[j].0 != name@,
            decreases n - i,
        {
            if str_eq(self.entries[i].0.as_str(), name.as_str()) {
                proof {
                    lemma_map_insert_at(self@, name@, varsv, i as int);
                }
                let entry = (name, vars);
                let ghost gentry = entry;
                self.entries[i] = entry;
                proof {
                    assert(self.entries@ == old(self).entries@.update(i as int, gentry));
                    assert(self@[i as int] == (namev, varsv));
                    assert(self@ =~~= old(self)@.update(i as int, (namev, varsv)));
                }
                return;
            }
            i += 1;
        }
        proof {
            lemma_map_insert_absent(self@, name@, varsv);
        }
        self.entries.push((name, vars));
        proof {
            assert(self@ =~~= old(self)@.push((namev, varsv)));
        }
    }

    pub fn contains_key(&self, name: &str) -> (r: bool)
        ensures
            r == (map_get(self@, name@) is Some),
    {
        let n = self.entries.len();
        let mut i: usize = 0;
        while i < n
            invariant
                n == self.entries@.len(),
                i <= n,
                forall|j: int| 0 <= j < i ==> self@[j].0 != name@,
            decreases n - i,
        {
            if str_eq(self.entries[i].0.as_str(), name) {
                proof {
                    lemma_map_get_at(self@, name@, i as int);
                }
                return true;
            }
            i += 1;
        }
        proof {
            lemma_map_get_absent(self@, name@);
        }
        false
    }

    pub fn get(&self, name: &str) -> (r: Option<&Vec<Variable>>)
        ensures
            match r {
                Some(vars) => map_get(self@, name@) == Some(vars_view(vars@)),
                None => map_get(self@, name@) is None,
            },
    {
        let n = self.entries.len();
        let mut i: usize = 0;
        while i < n
            invariant
                n == self.entries@.len(),
                i <= n,
                forall|j: int| 0 <= j < i ==> self@[j].0 != name@,
            decreases n - i,
        {
            if str_eq(self.entries[i].0.as_str(), name) {
                proof {
                    lemma_map_get_at(self@, name@, i as int);
                }
                return Some(&self.entries[i].1);
            }
            i += 1;
        }
        proof {
            lemma_map_get_absent(self@, name@);
        }
        None
    }
}

} // verus!
