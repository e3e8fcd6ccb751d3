//! Simple caches: a verified in-memory key-value cache and a cache that
//! stores nothing.

use crate::strutil::str_eq;
use vstd::prelude::*;

verus! {

/// The (key view, value) pairs of a cache entry vector.
pub open spec fn kv_views<T>(s: Seq<(String, T)>) -> Seq<(Seq<char>, T)> {
    s.map_values(|e: (String, T)| (e.0@, e.1))
}

/// The map an entry list denotes: entries apply in order, later wins.
pub open spec fn contents_of<V>(s: Seq<(Seq<char>, V)>) -> Map<Seq<char>, V>
    decreases s.len(),
{
    if s.len() == 0 {
        Map::empty()
    } else {
        contents_of(s.drop_last()).insert(s.last().0, s.last().1)
    }
}

proof fn lemma_contents_last_match<V>(s: Seq<(Seq<char>, V)>, k: Seq<char>, i: int)
    requires
        0 <= i < s.len(),
        s[i].0 == k,
        forall|j: int| i < j < s.len() ==> s[j].0 != k,
    ensures
        contents_of(s).contains_key(k),
        contents_of(s)[k] == s[i].1,
    decreases s.len(),
{
    if i < s.len() - 1 {
        lemma_contents_last_match(s.drop_last(), k, i);
    }
}

proof fn lemma_contents_absent<V>(s: Seq<(Seq<char>, V)>, k: Seq<char>)
    requires
        forall|j: int| 0 <= j < s.len() ==> s[j].0 != k,
    ensures
        !contents_of(s).contains_key(k),
    decreases s.len(),
{
    if s.len() > 0 {
        lemma_contents_absent(s.drop_last(), k);
    }
}

/// The error of the in-memory cache. The cache itself cannot fail; the
/// type exists so the cache offers the common fallible interface.
#[derive(Clone, Copy, Debug, PartialEq, Eq, Structural)]
pub struct InMemoryCacheError;

/// An in-memory key-value cache: a map from string keys to values.
#[derive(Debug)]
pub struct InMemoryCache<T> {
    pub entries: Vec<(String, T)>,
}

impl<T> View for InMemoryCache<T> {
    type V = Map<Seq<char>, T>;

    open spec fn view(&self) -> Map<Seq<char>, T> {
        contents_of(kv_views(self.entries@))
    }
}

impl<T> InMemoryCache<T> {
    /// An empty cache.
    pub fn new() -> (r: InMemoryCache<T>)
        ensures
            r@ == Map::<Seq<char>, T>::empty(),
    {
        let r = InMemoryCache { entries: Vec::new() };
        proof {
            assert(kv_views(r.entries@) =~= Seq::<(Seq<char>, T)>::empty());
        }
        r
    }

    /// Drop every entry under `key`, reporting whether there was one.
    fn evict(&mut self, key: &str) -> (r: bool)
        ensures
            final(self)@ == old(self)@.remove(key@),
            r == old(self)@.contains_key(key@),
    {
        let ghost s0 = kv_views(self.entries@);
        proof {
            vstd::std_specs::vec::axiom_spec_len(&self.entries);
        }
        let mut rest: Vec<(String, T)> = Vec::new();
        core::mem::swap(&mut rest, &mut self.entries);
        proof {
            assert(kv_views(self.entries@) =~= Seq::<(Seq<char>, T)>::empty());
        }
        let mut found = false;
        let ghost n = s0.len() as int;
        let mut i: usize = 0;
        while rest.len() > 0
            invariant
                s0.len() <= usize::MAX,
                i + rest@.len() == s0.len(),
                kv_views(rest@) =~= s0.skip(i as int),
                contents_of(kv_views(self.entries@)) == contents_of(s0.take(i as int)).remove(
                    key@,
                ),
                found == contents_of(s0.take(i as int)).contains_key(key@),
            decreases rest.len(),
        {
            let ghost k = i as int;
            let e = rest.remove(0);
            proof {
                assert(kv_views(rest@) =~= s0.skip(k).skip(1));
                assert(s0.skip(k).skip(1) =~= s0.skip(k + 1));
                assert(s0.skip(k)[0] == s0[k]);
                assert((e.0@, e.1) == s0[k]);
                assert(s0.take(k + 1).drop_last() =~= s0.take(k));
                assert(s0.take(k + 1).last() == s0[k]);
            }
            if str_eq(e.0.as_str(), key) {
                found = true;
                proof {
                    assert(contents_of(s0.take(k + 1)).remove(key@) =~= contents_of(
                        s0.take(k),
                    ).remove(key@));
                }
            } else {
                let ghost kept0 = kv_views(self.entries@);
                self.entries.push(e);
                proof {
                    assert(kv_views(self.entries@) =~= kept0.push((e.0@, e.1)));
                    assert(contents_of(kept0.push((e.0@, e.1))) == contents_of(kept0).insert(
                        e.0@,
                        e.1,
                    )) by {
                        assert(kept0.push((e.0@, e.1)).drop_last() =~= kept0);
                    }
                    assert(contents_of(s0.take(k + 1)).remove(key@) =~= contents_of(
                        s0.take(k),
                    ).remove(key@).insert(e.0@, e.1));
                }
            }
            i += 1;
        }
        proof {
            assert(s0.take(n) =~= s0);
        }
        found
    }

    /// Store `value` under `key`, replacing any earlier value.
    pub fn set(&mut self, key: &str, value: T) -> (r: Result<(), InMemoryCacheError>)
        ensures
            final(self)@ == old(self)@.insert(key@, value),
            r == Ok::<(), InMemoryCacheError>(()),
    {
        self.evict(key);
        let ghost kept = kv_views(self.entries@);
        self.entries.push((String::from_str(key), value));
        proof {
            assert(kv_views(self.entries@) =~= kept.push((key@, value)));
            assert(contents_of(kept.push((key@, value))) == contents_of(kept).insert(
                key@,
                value,
            )) by {
                assert(kept.push((key@, value)).drop_last() =~= kept);
            }
            assert(old(self)@.remove(key@).insert(key@, value) =~= old(self)@.insert(key@, value));
        }
        Ok(())
    }

    /// Look up the value under `key`.
    pub fn get(&self, key: &str) -> (r: Result<Option<&T>, InMemoryCacheError>)
        ensures
            self@.contains_key(key@) ==> (r matches Ok(Some(v)) && *v == self@[key@]),
            !self@.contains_key(key@) ==> r == Ok::<Option<&T>, InMemoryCacheError>(None),
    {
        let ghost s0 = kv_views(self.entries@);
        let mut i: usize = self.entries.len();
        while i > 0
            invariant
                0 <= i <= self.entries@.len(),
                s0 == kv_views(self.entries@),
                forall|j: int| i <= j < s0.len() ==> (#[trigger] s0[j].0) != key@,
            decreases i,
        {
            i -= 1;
            if str_eq(self.entries[i].0.as_str(), key) {
                proof {
                    assert(s0[i as int].0 == key@);
                    lemma_contents_last_match(s0, key@, i as int);
                }
                return Ok(Some(&self.entries[i].1));
            }
        }
        proof {
            lemma_contents_absent(s0, key@);
        }
        Ok(None)
    }

    /// Drop the value under `key`, reporting whether there was one.
    pub fn remove(&mut self, key: &str) -> (r: Result<bool, InMemoryCacheError>)
        ensures
            final(self)@ == old(self)@.remove(key@),
            r == Ok::<bool, InMemoryCacheError>(old(self)@.contains_key(key@)),
    {
        let found = self.evict(key);
        Ok(found)
    }
}

/// A cache that stores nothing: every lookup misses, every store is
/// swallowed whole.
#[derive(Debug)]
pub struct NullCache<T, E> {
    phantom_t: core::marker::PhantomData<T>,
    phantom_e: core::marker::PhantomData<E>,
}

impl<T, E> NullCache<T, E> {
    pub fn new() -> (r: Self) {
        NullCache { phantom_t: core::marker::PhantomData, phantom_e: core::marker::PhantomData }
    }

    /// Every lookup misses.
    pub fn get(&self, _key: &str) -> (r: Result<Option<T>, E>)
        ensures
            r matches Ok(o) && o is None,
    {
        Ok(None)
    }

    /// Every store is accepted and dropped.
    pub fn set(&self, _key: &str, _value: T) -> (r: Result<(), E>)
        ensures
            r matches Ok(u),
    {
        Ok(())
    }

    /// There is never anything to remove.
    pub fn remove(&self, _key: &str) -> (r: Result<bool, E>)
        ensures
            r matches Ok(b) && b == false,
    {
        Ok(false)
    }
}

} // verus!
