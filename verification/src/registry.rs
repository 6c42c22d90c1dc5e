//! The pool registry: one connection pool per connection string, for the
//! life of the process.
//!
//! The pools themselves live with the database driver; the registry owns
//! the keys and assigns each distinct connection string a stable handle —
//! the index it was first registered at.  All mutation goes through one
//! get-or-insert primitive, so when concurrent first-accesses to the same
//! unseen key serialize through it, exactly one of them installs the key
//! and every other one receives that same handle: no pool is ever
//! displaced or leaked.

use vstd::prelude::*;

verus! {

/// The registry's state: the registered connection strings, in the order
/// they were first seen.  A key's handle is its index.
#[derive(Debug)]
pub struct PoolRegistry {
    pub keys: Vec<String>,
}

/// How many registered keys read `k`.
pub open spec fn count_key(keys: Seq<String>, k: Seq<char>) -> int
    decreases keys.len(),
{
    if keys.len() == 0 {
        0
    } else {
        (if keys[0]@ == k {
            1int
        } else {
            0int
        }) + count_key(keys.drop_first(), k)
    }
}

impl PoolRegistry {
    /// Each connection string is registered at most once.
    pub open spec fn wf(self) -> bool {
        forall|i: int, j: int|
            0 <= i < j < self.keys@.len() ==> (#[trigger] self.keys@[i])@ != (
            #[trigger] self.keys@[j])@
    }

    /// Whether `k` is registered.
    pub open spec fn contains_key(self, k: Seq<char>) -> bool {
        exists|i: int| 0 <= i < self.keys@.len() && (#[trigger] self.keys@[i])@ == k
    }

    /// An empty registry, created once at startup.
    pub fn new() -> (r: PoolRegistry)
        ensures
            r.wf(),
            r.keys@.len() == 0,
    {
        PoolRegistry { keys: Vec::new() }
    }

    /// The handle `key` is registered under, if any.
    pub fn lookup(&self, key: &str) -> (r: Option<usize>)
        ensures
            r matches Some(i) ==> i < self.keys@.len() && self.keys@[i as int]@ == key@,
            r is None <==> !self.contains_key(key@),
    {
        let mut i: usize = 0;
        while i < self.keys.len()
            invariant
                0 <= i <= self.keys@.len(),
                forall|j: int| 0 <= j < i ==> (#[trigger] self.keys@[j])@ != key@,
            decreases self.keys@.len() - i,
        {
            let ki: String = self.keys[i].clone();
            let needle: String = key.to_owned();
            if ki == needle {
                return Some(i);
            }
            i += 1;
        }
        None
    }

    /// Registers `key` if it is absent, and returns its handle together
    /// with whether it was just registered (so the caller must create the
    /// pool for that handle).  A hit leaves the registry untouched and
    /// returns the existing handle; a miss appends the key and returns
    /// the fresh handle.  This is the registry's only mutation: get and
    /// insert are one primitive, never two steps a second caller could
    /// slip between.
    pub fn get_or_insert(&mut self, key: &str) -> (r: (usize, bool))
        requires
            old(self).wf(),
        ensures
            final(self).wf(),
            r.1 == !old(self).contains_key(key@),
            !r.1 ==> *final(self) == *old(self) && r.0 < final(self).keys@.len()
                && final(self).keys@[r.0 as int]@ == key@,
            r.1 ==> {
                &&& r.0 == old(self).keys@.len()
                &&& final(self).keys@.len() == old(self).keys@.len() + 1
                &&& final(self).keys@.take(r.0 as int) == old(self).keys@
                &&& final(self).keys@[r.0 as int]@ == key@
            },
    {
        match self.lookup(key) {
            Option::Some(i) => (i, false),
            Option::None => {
                let i = self.keys.len();
                self.keys.push(key.to_owned());
                proof {
                    assert(final(self).keys@.take(i as int) =~= old(self).keys@);
                }
                (i, true)
            },
        }
    }
}

/// No registered key reads `k` exactly when the count is zero.
proof fn lemma_count_key_zero(keys: Seq<String>, k: Seq<char>)
    requires
        forall|i: int| 0 <= i < keys.len() ==> (#[trigger] keys[i])@ != k,
    ensures
        count_key(keys, k) == 0,
    decreases keys.len(),
{
    if keys.len() > 0 {
        lemma_count_key_zero(keys.drop_first(), k);
    }
}

/// However many concurrent first-accesses race on one unseen connection
/// string, exactly one pool is retained under it.  Every access goes
/// through the atomic `get_or_insert`, so the accesses serialize: the
/// first miss installs the key, every later call finds it, changes
/// nothing, and receives the same handle (its contract).  This lemma
/// states the resulting registry shape: a registered key has exactly one
/// entry.
pub proof fn lemma_one_pool_per_key(r: PoolRegistry, k: Seq<char>)
    requires
        r.wf(),
        r.contains_key(k),
    ensures
        count_key(r.keys@, k) == 1,
{
    lemma_count_key_one(r.keys@, k);
}

/// The inductive core of `lemma_one_pool_per_key`.
proof fn lemma_count_key_one(keys: Seq<String>, k: Seq<char>)
    requires
        forall|i: int, j: int|
            0 <= i < j < keys.len() ==> (#[trigger] keys[i])@ != (#[trigger] keys[j])@,
        exists|i: int| 0 <= i < keys.len() && (#[trigger] keys[i])@ == k,
    ensures
        count_key(keys, k) == 1,
    decreases keys.len(),
{
    let w = choose|i: int| 0 <= i < keys.len() && (#[trigger] keys[i])@ == k;
    if keys[0]@ == k {
        assert(forall|i: int|
            0 <= i < keys.drop_first().len() ==> (#[trigger] keys.drop_first()[i])@ != k);
        lemma_count_key_zero(keys.drop_first(), k);
    } else {
        assert(keys.drop_first()[w - 1]@ == k);
        lemma_count_key_one(keys.drop_first(), k);
    }
}

} // verus!
