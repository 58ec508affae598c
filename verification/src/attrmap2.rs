//! A string-keyed attribute store.
//!
//! `AttrMap2` backs both a value format and each of its parts: a sparse set
//! of named, independently optional properties, held as key/value pairs and
//! viewed abstractly as a `Map` from key text to value text.

use vstd::prelude::*;

verus! {

/// Relies on `str`'s `PartialEq`: two string slices compare equal exactly
/// when they hold the same characters.
#[verifier::external_body]
pub(crate) fn str_eq(a: &str, b: &str) -> (r: bool)
    ensures
        r == (a@ == b@),
{
    a == b
}

/// The map described by a sequence of key/value pairs; a later pair with the
/// same key overrides an earlier one.
pub open spec fn kv_map(s: Seq<(String, String)>) -> Map<Seq<char>, Seq<char>>
    decreases s.len(),
{
    if s.len() == 0 {
        Map::empty()
    } else {
        kv_map(s.drop_last()).insert(s.last().0@, s.last().1@)
    }
}

/// A key is in the map exactly when some pair carries it.
proof fn lemma_kv_map_contains(s: Seq<(String, String)>, k: Seq<char>)
    ensures
        kv_map(s).contains_key(k) <==> exists|i: int| 0 <= i < s.len() && s[i].0@ == k,
    decreases s.len(),
{
    if s.len() > 0 {
        lemma_kv_map_contains(s.drop_last(), k);
        if kv_map(s).contains_key(k) && s.last().0@ != k {
            let i = choose|i: int| 0 <= i < s.drop_last().len() && s.drop_last()[i].0@ == k;
            assert(s[i].0@ == k);
        }
        if exists|i: int| 0 <= i < s.len() && s[i].0@ == k {
            let i = choose|i: int| 0 <= i < s.len() && s[i].0@ == k;
            if i < s.len() - 1 {
                assert(s.drop_last()[i].0@ == k);
            }
        }
    }
}

/// The value of key `k` comes from the last pair carrying `k`.
proof fn lemma_kv_map_lookup(s: Seq<(String, String)>, i: int)
    requires
        0 <= i < s.len(),
        forall|j: int| i < j < s.len() ==> s[j].0@ != s[i].0@,
    ensures
        kv_map(s).contains_key(s[i].0@),
        kv_map(s)[s[i].0@] == s[i].1@,
    decreases s.len(),
{
    if i == s.len() - 1 {
    } else {
        assert(s.drop_last()[i] == s[i]);
        lemma_kv_map_lookup(s.drop_last(), i);
    }
}

/// Overwriting the last pair carrying key `k` updates the map at `k`.
proof fn lemma_kv_map_update(s: Seq<(String, String)>, i: int, p: (String, String))
    requires
        0 <= i < s.len(),
        s[i].0@ == p.0@,
        forall|j: int| i < j < s.len() ==> s[j].0@ != p.0@,
    ensures
        kv_map(s.update(i, p)) == kv_map(s).insert(p.0@, p.1@),
    decreases s.len(),
{
    let t = s.update(i, p);
    if i == s.len() - 1 {
        assert(t.drop_last() =~= s.drop_last());
        assert(kv_map(t) =~= kv_map(s).insert(p.0@, p.1@));
    } else {
        assert(t.drop_last() =~= s.drop_last().update(i, p));
        lemma_kv_map_update(s.drop_last(), i, p);
        assert(kv_map(t) =~= kv_map(s).insert(p.0@, p.1@));
    }
}

/// A store of named string attributes.
#[derive(Debug, Clone)]
pub struct AttrMap2 {
    pairs: Vec<(String, String)>,
}

impl View for AttrMap2 {
    type V = Map<Seq<char>, Seq<char>>;

    closed spec fn view(&self) -> Map<Seq<char>, Seq<char>> {
        kv_map(self.pairs@)
    }
}

impl AttrMap2 {
    /// New, empty.
    pub fn new() -> (r: Self)
        ensures
            r@ == Map::<Seq<char>, Seq<char>>::empty(),
    {
        AttrMap2 { pairs: Vec::new() }
    }

    /// True when no attribute is set.
    pub fn is_empty(&self) -> (r: bool)
        ensures
            r == self@.dom().is_empty(),
    {
        proof {
            if self.pairs@.len() > 0 {
                assert(self@.contains_key(self.pairs@.last().0@));
                assert(!self@.dom().is_empty());
            } else {
                assert(self@.dom() =~= Set::<Seq<char>>::empty());
            }
        }
        self.pairs.is_empty()
    }

    /// Looks up an attribute by name.
    pub fn attr(&self, name: &str) -> (r: Option<&String>)
        ensures
            match r {
                Some(v) => self@.contains_key(name@) && v@ == self@[name@],
                None => !self@.contains_key(name@),
            },
    {
        let n = self.pairs.len();
        let mut i: usize = n;
        while i > 0
            invariant
                0 <= i <= n,
                n == self.pairs@.len(),
                forall|j: int| i <= j < n ==> self.pairs@[j].0@ != name@,
            decreases i,
        {
            i = i - 1;
            if str_eq(self.pairs[i].0.as_str(), name) {
                proof {
                    lemma_kv_map_lookup(self.pairs@, i as int);
                }
                return Some(&self.pairs[i].1);
            }
        }
        proof {
            lemma_kv_map_contains(self.pairs@, name@);
        }
        None
    }

    /// Sets an attribute, replacing any earlier value under the same name.
    pub fn set_attr(&mut self, name: &str, value: String)
        ensures
            final(self)@ == old(self)@.insert(name@, value@),
    {
        let n = self.pairs.len();
        let mut i: usize = n;
        while i > 0
            invariant
                0 <= i <= n,
                n == self.pairs@.len(),
                *self == *old(self),
                forall|j: int| i <= j < n ==> self.pairs@[j].0@ != name@,
            decreases i,
        {
            i = i - 1;
            if str_eq(self.pairs[i].0.as_str(), name) {
                let ghost s0 = self.pairs@;
                self.pairs[i].1 = value;
                proof {
                    let p = self.pairs@[i as int];
                    assert(self.pairs@ =~= s0.update(i as int, p));
                    assert(p.0@ == name@);
                    lemma_kv_map_update(s0, i as int, p);
                }
                return;
            }
        }
        let ghost s0 = self.pairs@;
        self.pairs.push((name.to_owned(), value));
        proof {
            assert(self.pairs@.drop_last() =~= s0);
        }
    }
}

} // verus!
