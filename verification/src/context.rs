//! The variable environment: a mapping from names to signed 32-bit values.
//!
//! Bindings are recorded append-only; a lookup takes the latest binding for
//! a name, so the last write wins. Viewed mathematically, the environment
//! is a finite map from character sequences to values.

use vstd::prelude::*;

use crate::token::str_eq;

verus! {

/// The mapping described by a sequence of bindings, later bindings winning.
pub open spec fn map_of(pairs: Seq<(String, i32)>) -> Map<Seq<char>, i32>
    decreases pairs.len(),
{
    if pairs.len() == 0 {
        Map::empty()
    } else {
        map_of(pairs.drop_last()).insert(pairs.last().0@, pairs.last().1)
    }
}

/// If position `i` holds the latest binding of `k`, the map takes its value.
proof fn lemma_map_of_found(pairs: Seq<(String, i32)>, i: int, k: Seq<char>)
    requires
        0 <= i < pairs.len(),
        pairs[i].0@ == k,
        forall|j: int| i < j < pairs.len() ==> (#[trigger] pairs[j]).0@ != k,
    ensures
        map_of(pairs).contains_key(k),
        map_of(pairs)[k] == pairs[i].1,
    decreases pairs.len(),
{
    if i == pairs.len() - 1 {
    } else {
        assert(pairs.last() == pairs[pairs.len() - 1]);
        lemma_map_of_found(pairs.drop_last(), i, k);
    }
}

/// A name bound at no position is absent from the map.
proof fn lemma_map_of_absent(pairs: Seq<(String, i32)>, k: Seq<char>)
    requires
        forall|j: int| 0 <= j < pairs.len() ==> (#[trigger] pairs[j]).0@ != k,
    ensures
        !map_of(pairs).contains_key(k),
    decreases pairs.len(),
{
    if pairs.len() > 0 {
        assert(pairs.last() == pairs[pairs.len() - 1]);
        lemma_map_of_absent(pairs.drop_last(), k);
    }
}

/// The mutable variable environment threaded through evaluation.
pub struct Context {
    pairs: Vec<(String, i32)>,
}

impl View for Context {
    type V = Map<Seq<char>, i32>;

    closed spec fn view(&self) -> Map<Seq<char>, i32> {
        map_of(self.pairs@)
    }
}

impl Context {
    /// An empty environment.
    pub fn new() -> (r: Self)
        ensures
            r@ == Map::<Seq<char>, i32>::empty(),
    {
        Context { pairs: Vec::new() }
    }

    /// Look the name up; `None` if it was never bound.
    pub fn get(&self, name: &str) -> (r: Option<i32>)
        ensures
            r == if self@.contains_key(name@) {
                Some(self@[name@])
            } else {
                None::<i32>
            },
    {
        let n = self.pairs.len();
        let mut i = n;
        while i > 0
            invariant
                i <= n,
                n == self.pairs@.len(),
                forall|j: int| i <= j < n ==> (#[trigger] self.pairs@[j]).0@ != name@,
            decreases i,
        {
            i = i - 1;
            if str_eq(self.pairs[i].0.as_str(), name) {
                proof {
                    lemma_map_of_found(self.pairs@, i as int, name@);
                }
                return Some(self.pairs[i].1);
            }
        }
        proof {
            lemma_map_of_absent(self.pairs@, name@);
        }
        None
    }

    /// Bind the name to the value, inserting it or overriding any earlier
    /// binding.
    pub fn set(&mut self, name: String, val: i32)
        ensures
            final(self)@ == old(self)@.insert(name@, val),
    {
        let ghost before = self.pairs@;
        let ghost k = name@;
        self.pairs.push((name, val));
        proof {
            assert(self.pairs@.drop_last() =~= before);
            assert(self.pairs@.last().0@ == k);
        }
    }
}

impl Default for Context {
    /// The default environment is empty.
    fn default() -> (r: Self)
        ensures
            r@ == Map::<Seq<char>, i32>::empty(),
    {
        Context::new()
    }
}

} // verus!
