//! The substitution mapping: generic-parameter names associated with the
//! concrete type expressions they are bound to.

use vstd::prelude::*;
use vstd::pervasive::VecAdditionalExecFns;

use crate::ast::{clone_type, TypeExpr, TypeV};

verus! {

/// One association of a generic-parameter name with a concrete type.
#[derive(PartialEq, Eq, Debug)]
pub struct MapPair {
    pub key: String,
    pub value: TypeExpr,
}

/// The substitution mapping built from the directive arguments: a finite map
/// from generic-parameter name to concrete type expression. Keys are unique;
/// no ordering is guaranteed or relied upon.
pub struct Mapping {
    pairs: Vec<MapPair>,
}

/// The map denoted by a sequence of key/value pairs (later pairs win; the
/// well-formed case has no duplicate keys at all).
pub open spec fn pairs_map(s: Seq<MapPair>) -> Map<Seq<char>, TypeV>
    decreases s.len(),
{
    if s.len() == 0 {
        Map::empty()
    } else {
        pairs_map(s.drop_last()).insert(s.last().key@, s.last().value@)
    }
}

/// No two pairs share a key.
pub open spec fn unique_keys(s: Seq<MapPair>) -> bool {
    forall|i: int, j: int|
        0 <= i < s.len() && 0 <= j < s.len() && i != j ==> s[i].key@ != s[j].key@
}

/// A key is in the map denoted by a pair sequence exactly when some pair
/// carries it.
pub proof fn lemma_pairs_map_domain(s: Seq<MapPair>, k: Seq<char>)
    ensures
        pairs_map(s).contains_key(k) <==> exists|i: int| 0 <= i < s.len() && s[i].key@ == k,
    decreases s.len(),
{
    if s.len() > 0 {
        lemma_pairs_map_domain(s.drop_last(), k);
        if s.last().key@ != k {
            if exists|i: int| 0 <= i < s.len() && s[i].key@ == k {
                let i = choose|i: int| 0 <= i < s.len() && s[i].key@ == k;
                assert(0 <= i < s.len() - 1 && s.drop_last()[i].key@ == k);
            }
        }
    }
}

/// With unique keys, each pair's key maps to that pair's value.
pub proof fn lemma_pairs_map_value(s: Seq<MapPair>, i: int)
    requires
        unique_keys(s),
        0 <= i < s.len(),
    ensures
        pairs_map(s).contains_key(s[i].key@),
        pairs_map(s)[s[i].key@] == s[i].value@,
    decreases s.len(),
{
    lemma_pairs_map_domain(s, s[i].key@);
    if i < s.len() - 1 {
        assert(unique_keys(s.drop_last()));
        lemma_pairs_map_value(s.drop_last(), i);
        assert(s.drop_last()[i] == s[i]);
        assert(s.last().key@ != s[i].key@);
    }
}

impl View for Mapping {
    type V = Map<Seq<char>, TypeV>;

    closed spec fn view(&self) -> Map<Seq<char>, TypeV> {
        pairs_map(self.pairs@)
    }
}

impl Mapping {
    /// Well-formedness: no generic-parameter name occurs twice.
    pub closed spec fn wf(&self) -> bool {
        unique_keys(self.pairs@)
    }

    /// Creates an empty mapping.
    pub fn new() -> (r: Mapping)
        ensures
            r.wf(),
            r@ == Map::<Seq<char>, TypeV>::empty(),
    {
        Mapping { pairs: Vec::new() }
    }

    /// Binds `key` to `value`, replacing any earlier binding of `key`.
    pub fn insert(&mut self, key: String, value: TypeExpr)
        requires
            old(self).wf(),
        ensures
            final(self).wf(),
            final(self)@ == old(self)@.insert(key@, value@),
    {
        let ghost s0 = self.pairs@;
        let mut i: usize = 0;
        let n = self.pairs.len();
        while i < n
            invariant
                n == self.pairs.len(),
                i <= n,
                s0 == old(self).pairs@,
                self.pairs@ == s0,
                unique_keys(s0),
                forall|j: int| 0 <= j < i ==> s0[j].key@ != key@,
            decreases n - i,
        {
            if self.pairs[i].key == key {
                self.pairs.set(i, MapPair { key, value });
                proof {
                    let s1 = self.pairs@;
                    assert forall|a: int| 0 <= a < s1.len() implies s1[a].key@ == s0[a].key@ by {}
                    assert(unique_keys(s1));
                    lemma_update_is_insert(s0, i as int, s1);
                }
                return ;
            }
            i += 1;
        }
        self.pairs.push(MapPair { key, value });
        proof {
            let s1 = self.pairs@;
            assert(s1.drop_last() =~= s0);
            assert(unique_keys(s1));
        }
    }

    /// Looks `name` up; absence of a key is a valid state, not an error.
    pub fn get(&self, name: &String) -> (r: Option<&TypeExpr>)
        requires
            self.wf(),
        ensures
            match r {
                Option::Some(t) => self@.contains_key(name@) && t@ == self@[name@],
                Option::None => !self@.contains_key(name@),
            },
    {
        let mut i: usize = 0;
        let n = self.pairs.len();
        while i < n
            invariant
                n == self.pairs.len(),
                i <= n,
                self.wf(),
                forall|j: int| 0 <= j < i ==> self.pairs@[j].key@ != name@,
            decreases n - i,
        {
            if self.pairs[i].key == *name {
                proof {
                    lemma_pairs_map_value(self.pairs@, i as int);
                }
                return Option::Some(&self.pairs[i].value);
            }
            i += 1;
        }
        proof {
            lemma_pairs_map_domain(self.pairs@, name@);
        }
        Option::None
    }

    /// Looks `name` up and clones the bound concrete type, if any.
    pub fn get_cloned(&self, name: &String) -> (r: Option<TypeExpr>)
        requires
            self.wf(),
        ensures
            match r {
                Option::Some(t) => self@.contains_key(name@) && t@ == self@[name@],
                Option::None => !self@.contains_key(name@),
            },
    {
        match self.get(name) {
            Option::Some(t) => Option::Some(clone_type(t)),
            Option::None => Option::None,
        }
    }
}

/// Updating the pair at `i` to a pair with the same key denotes the same map
/// as inserting that key anew.
proof fn lemma_update_is_insert(s0: Seq<MapPair>, i: int, s1: Seq<MapPair>)
    requires
        unique_keys(s0),
        unique_keys(s1),
        0 <= i < s0.len(),
        s1.len() == s0.len(),
        forall|j: int| 0 <= j < s0.len() && j != i ==> s1[j] == s0[j],
        s1[i].key@ == s0[i].key@,
    ensures
        pairs_map(s1) == pairs_map(s0).insert(s1[i].key@, s1[i].value@),
{
    let k = s1[i].key@;
    let v = s1[i].value@;
    let m1 = pairs_map(s1);
    let m2 = pairs_map(s0).insert(k, v);
    assert forall|key: Seq<char>| m1.contains_key(key) implies m2.contains_key(key) by {
        lemma_pairs_map_domain(s1, key);
        let j = choose|j: int| 0 <= j < s1.len() && s1[j].key@ == key;
        lemma_pairs_map_domain(s0, key);
        assert(s0[j].key@ == key || key == k);
    }
    assert forall|key: Seq<char>| m2.contains_key(key) implies m1.contains_key(key) by {
        if key == k {
            lemma_pairs_map_domain(s1, key);
        } else {
            lemma_pairs_map_domain(s0, key);
            let j = choose|j: int| 0 <= j < s0.len() && s0[j].key@ == key;
            assert(s1[j].key@ == key);
            lemma_pairs_map_domain(s1, key);
        }
    }
    assert forall|key: Seq<char>| m1.contains_key(key) implies m1[key] == m2[key] by {
        lemma_pairs_map_domain(s1, key);
        let j = choose|j: int| 0 <= j < s1.len() && s1[j].key@ == key;
        lemma_pairs_map_value(s1, j);
        if key == k {
            assert(j == i);
        } else {
            assert(j != i);
            lemma_pairs_map_value(s0, j);
        }
    }
    assert(m1 =~= m2);
}

} // verus!
