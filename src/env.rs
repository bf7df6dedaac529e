//! Environment overrides: a mapping from variable names to values with
//! unique keys, kept as a list of pairs.

use vstd::prelude::*;
use vstd::set_lib::lemma_subset_equality;

verus! {

/// True when no two pairs share a key.
pub open spec fn keys_unique(s: Seq<(String, String)>) -> bool {
    forall|i: int, j: int| 0 <= i < j < s.len() ==> s[i].0@ != s[j].0@
}

/// The mapping that a list of pairs stands for; a later pair wins.
pub open spec fn pairs_map(s: Seq<(String, String)>) -> Map<Seq<char>, Seq<char>>
    decreases s.len(),
{
    if s.len() == 0 {
        Map::empty()
    } else {
        pairs_map(s.drop_last()).insert(s.last().0@, s.last().1@)
    }
}

/// Keys of the mapping are exactly the keys of the pairs.
pub proof fn lemma_pairs_map_dom(s: Seq<(String, String)>, k: Seq<char>)
    ensures
        pairs_map(s).contains_key(k) <==> exists|i: int| 0 <= i < s.len() && s[i].0@ == k,
    decreases s.len(),
{
    if s.len() > 0 {
        lemma_pairs_map_dom(s.drop_last(), k);
        if pairs_map(s).contains_key(k) && k != s.last().0@ {
            let i = choose|i: int| 0 <= i < s.len() - 1 && s.drop_last()[i].0@ == k;
            assert(s[i].0@ == k);
        }
        if exists|i: int| 0 <= i < s.len() && s[i].0@ == k {
            let i = choose|i: int| 0 <= i < s.len() && s[i].0@ == k;
            if i < s.len() - 1 {
                assert(s.drop_last()[i].0@ == k);
            }
        }
    }
}

/// With unique keys, each pair is found in the mapping.
pub proof fn lemma_pairs_map_value(s: Seq<(String, String)>, i: int)
    requires
        keys_unique(s),
        0 <= i < s.len(),
    ensures
        pairs_map(s).contains_key(s[i].0@),
        pairs_map(s)[s[i].0@] == s[i].1@,
    decreases s.len(),
{
    if i < s.len() - 1 {
        lemma_pairs_map_value(s.drop_last(), i);
    }
}

/// With unique keys, the mapping has one key per pair.
pub proof fn lemma_pairs_map_len(s: Seq<(String, String)>)
    requires
        keys_unique(s),
    ensures
        pairs_map(s).dom().finite(),
        pairs_map(s).dom().len() == s.len(),
    decreases s.len(),
{
    if s.len() > 0 {
        let p = s.drop_last();
        lemma_pairs_map_len(p);
        lemma_pairs_map_dom(p, s.last().0@);
        assert(!pairs_map(p).contains_key(s.last().0@));
    }
}

/// Replacing the pair of an existing key sets that key's value.
pub proof fn lemma_pairs_map_update(s: Seq<(String, String)>, i: int, p: (String, String))
    requires
        keys_unique(s),
        0 <= i < s.len(),
        s[i].0@ == p.0@,
    ensures
        keys_unique(s.update(i, p)),
        pairs_map(s.update(i, p)) == pairs_map(s).insert(p.0@, p.1@),
    decreases s.len(),
{
    let t = s.update(i, p);
    let d = s.drop_last();
    if i == s.len() - 1 {
        assert(t.drop_last() =~= d);
        assert(pairs_map(t) =~= pairs_map(s).insert(p.0@, p.1@));
    } else {
        assert(t.drop_last() =~= d.update(i, p));
        lemma_pairs_map_update(d, i, p);
        assert(pairs_map(t) =~= pairs_map(s).insert(p.0@, p.1@));
    }
}

/// Two lists of pairs with the same texts stand for the same mapping.
pub proof fn lemma_pairs_map_same_text(s: Seq<(String, String)>, t: Seq<(String, String)>)
    requires
        s.len() == t.len(),
        forall|j: int| 0 <= j < s.len() ==> s[j].0@ == t[j].0@ && s[j].1@ == t[j].1@,
    ensures
        pairs_map(s) == pairs_map(t),
        keys_unique(s) ==> keys_unique(t),
    decreases s.len(),
{
    if s.len() > 0 {
        lemma_pairs_map_same_text(s.drop_last(), t.drop_last());
    }
}

/// A set of environment variable overrides.
pub struct EnvVars {
    pairs: Vec<(String, String)>,
}

impl View for EnvVars {
    type V = Map<Seq<char>, Seq<char>>;

    closed spec fn view(&self) -> Map<Seq<char>, Seq<char>> {
        pairs_map(self.pairs@)
    }
}

impl EnvVars {
    #[verifier::type_invariant]
    spec fn wf(&self) -> bool {
        keys_unique(self.pairs@)
    }

    /// An empty set of overrides.
    pub fn new() -> (r: EnvVars)
        ensures
            r@ == Map::<Seq<char>, Seq<char>>::empty(),
    {
        EnvVars { pairs: Vec::new() }
    }

    /// The number of variables.
    pub fn len(&self) -> (r: usize)
        ensures
            r as nat == self@.dom().len(),
    {
        proof {
            use_type_invariant(self);
            lemma_pairs_map_len(self.pairs@);
        }
        self.pairs.len()
    }

    fn find(&self, key: &String) -> (r: Option<usize>)
        ensures
            match r {
                Some(i) => i < self.pairs@.len() && self.pairs@[i as int].0@ == key@,
                None => !self@.contains_key(key@),
            },
    {
        proof {
            use_type_invariant(self);
        }
        let mut i: usize = 0;
        while i < self.pairs.len()
            invariant
                i <= self.pairs@.len(),
                forall|j: int| 0 <= j < i ==> self.pairs@[j].0@ != key@,
            decreases self.pairs@.len() - i,
        {
            if self.pairs[i].0 == *key {
                return Some(i);
            }
            i = i + 1;
        }
        proof {
            lemma_pairs_map_dom(self.pairs@, key@);
        }
        None
    }

    /// The value of a variable, if it is set.
    pub fn get(&self, key: &String) -> (r: Option<&String>)
        ensures
            match r {
                Some(v) => self@.contains_key(key@) && self@[key@] == v@,
                None => !self@.contains_key(key@),
            },
    {
        match self.find(key) {
            Some(i) => {
                proof {
                    use_type_invariant(self);
                    lemma_pairs_map_value(self.pairs@, i as int);
                }
                Some(&self.pairs[i].1)
            },
            None => None,
        }
    }
    /// The variables as pairs with unique keys.
    pub fn as_pairs(&self) -> (r: &Vec<(String, String)>)
        ensures
            keys_unique(r@),
            pairs_map(r@) == self@,
    {
        proof {
            use_type_invariant(self);
        }
        &self.pairs
    }

    /// Sets a variable, replacing an earlier value of it.
    pub fn insert(&mut self, key: String, value: String)
        ensures
            final(self)@ == old(self)@.insert(key@, value@),
    {
        proof {
            use_type_invariant(&*self);
        }
        let found = self.find(&key);
        let mut pairs: Vec<(String, String)> = Vec::new();
        std::mem::swap(&mut pairs, &mut self.pairs);
        let ghost prev = pairs@;
        match found {
            Some(i) => {
                proof {
                    lemma_pairs_map_update(prev, i as int, (key, value));
                }
                pairs.set(i, (key, value));
            },
            None => {
                proof {
                    assert forall|j: int| 0 <= j < prev.len() implies prev[j].0@ != key@ by {
                        lemma_pairs_map_dom(prev, key@);
                    }
                }
                pairs.push((key, value));
                proof {
                    assert(pairs@.drop_last() =~= prev);
                }
            },
        }
        self.pairs = pairs;
    }

    /// The overrides that a list of pairs gives, a later pair winning over
    /// an earlier one with the same key.
    pub fn from_pairs(pairs: Vec<(String, String)>) -> (r: EnvVars)
        ensures
            r@ == pairs_map(pairs@),
    {
        let mut r = EnvVars::new();
        let mut i: usize = 0;
        while i < pairs.len()
            invariant
                i <= pairs@.len(),
                    r@ == pairs_map(pairs@.subrange(0, i as int)),
            decreases pairs@.len() - i,
        {
            let k = pairs[i].0.clone();
            let v = pairs[i].1.clone();
            r.insert(k, v);
            proof {
                assert(pairs@.subrange(0, i + 1).drop_last() =~= pairs@.subrange(0, i as int));
            }
            i = i + 1;
        }
        proof {
            assert(pairs@.subrange(0, i as int) =~= pairs@);
        }
        r
    }

    /// A copy with the same variables.
    pub fn duplicate(&self) -> (r: EnvVars)
        ensures
            r@ == self@,
    {
        proof {
            use_type_invariant(self);
        }
        let mut out: Vec<(String, String)> = Vec::new();
        let mut i: usize = 0;
        while i < self.pairs.len()
            invariant
                i <= self.pairs@.len(),
                out@.len() == i,
                forall|j: int|
                    0 <= j < i ==> out@[j].0@ == self.pairs@[j].0@ && out@[j].1@
                        == self.pairs@[j].1@,
            decreases self.pairs@.len() - i,
        {
            out.push((self.pairs[i].0.clone(), self.pairs[i].1.clone()));
            i = i + 1;
        }
        proof {
            lemma_pairs_map_same_text(self.pairs@, out@);
        }
        EnvVars { pairs: out }
    }

    /// Whether both hold the same variables with the same values, in
    /// whatever order they were set.
    pub fn same_as(&self, other: &EnvVars) -> (r: bool)
        ensures
            r == (self@ == other@),
    {
        proof {
            use_type_invariant(self);
            use_type_invariant(other);
            lemma_pairs_map_len(self.pairs@);
            lemma_pairs_map_len(other.pairs@);
        }
        if self.pairs.len() != other.pairs.len() {
            return false;
        }
        let mut i: usize = 0;
        while i < self.pairs.len()
            invariant
                i <= self.pairs@.len(),
                keys_unique(self.pairs@),
                forall|j: int|
                    0 <= j < i ==> other@.contains_key(#[trigger] self.pairs@[j].0@)
                        && other@[self.pairs@[j].0@] == self.pairs@[j].1@,
            decreases self.pairs@.len() - i,
        {
            proof {
                lemma_pairs_map_value(self.pairs@, i as int);
            }
            match other.get(&self.pairs[i].0) {
                Some(v) => {
                    if !(*v == self.pairs[i].1) {
                        return false;
                    }
                },
                None => {
                    return false;
                },
            }
            i = i + 1;
        }
        proof {
            assert forall|k: Seq<char>| #[trigger] self@.dom().contains(k) implies other@.dom().contains(
                k,
            ) && other@[k] == self@[k] by {
                lemma_pairs_map_dom(self.pairs@, k);
                let j = choose|j: int| 0 <= j < self.pairs@.len() && self.pairs@[j].0@ == k;
                lemma_pairs_map_value(self.pairs@, j);
            }
            assert(self@.dom().subset_of(other@.dom()));
            assert(self@.dom().len() == other@.dom().len());
            lemma_subset_equality(self@.dom(), other@.dom());
            assert(self@ =~= other@);
        }
        true
    }
}

} // verus!
