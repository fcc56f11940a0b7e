//! The Global Reference Tracker.
//!
//! A keyed registry of type-erased event-wait containers, so a value can
//! be registered once and retrieved from arbitrary callback contexts.  The
//! tracker is an explicit context object with two states, absent and
//! present: `init` publishes an empty registry, `destroy` withdraws it and
//! finalises every contained container.  Registration wraps the value in a
//! fresh [`KMutex`] and stores it under a string key together with the tag
//! of its type; retrieval checks the requested type's tag against the
//! stored one and reports a mismatch as a typed error instead of
//! reinterpreting anything.

use vstd::prelude::*;

use crate::erased::Erasable;
use crate::erased::Erased;
use crate::erased::TypeTag;
use crate::errors::DriverMutexError;
use crate::errors::GrtError;
use crate::irql::DISPATCH_LEVEL;
use crate::kmutex::KMutex;
use crate::pool::KMAlloc;

verus! {

/// One registration: a key, the tag of the registered type, and the
/// container protecting the erased value.
struct GrtEntry {
    key: String,
    tag: TypeTag,
    mutex: KMutex<Erased>,
}

spec fn keys_unique(es: Seq<GrtEntry>) -> bool {
    forall|i: int, j: int| 0 <= i < j < es.len() ==> es[i].key@ != es[j].key@
}

spec fn seq_has_key(es: Seq<GrtEntry>, k: Seq<char>) -> bool {
    exists|i: int| 0 <= i < es.len() && es[i].key@ == k
}

spec fn seq_index_of(es: Seq<GrtEntry>, k: Seq<char>) -> int {
    choose|i: int| 0 <= i < es.len() && es[i].key@ == k
}

/// With unique keys, the entry at index `i` is exactly the entry its key
/// names.
proof fn lemma_entry_at(es: Seq<GrtEntry>, i: int)
    requires
        keys_unique(es),
        0 <= i < es.len(),
    ensures
        seq_has_key(es, es[i].key@),
        seq_index_of(es, es[i].key@) == i,
{
    assert(seq_has_key(es, es[i].key@));
    let j = seq_index_of(es, es[i].key@);
    if j != i {
        assert(false);
    }
}

/// Appending an entry under a fresh key keeps the keys unique, names the
/// new entry under its key, and leaves every other key's entry where it
/// was.
proof fn lemma_push(es: Seq<GrtEntry>, e: GrtEntry)
    requires
        keys_unique(es),
        !seq_has_key(es, e.key@),
    ensures
        keys_unique(es.push(e)),
        seq_has_key(es.push(e), e.key@),
        seq_index_of(es.push(e), e.key@) == es.len(),
        forall|k: Seq<char>|
            k != e.key@ ==> (#[trigger] seq_has_key(es.push(e), k) <==> seq_has_key(es, k)),
        forall|k: Seq<char>|
            k != e.key@ && #[trigger] seq_has_key(es, k) ==> seq_index_of(es.push(e), k)
                == seq_index_of(es, k),
{
    let post = es.push(e);
    assert forall|i: int, j: int| 0 <= i < j < post.len() implies post[i].key@ != post[j].key@ by {
        if j == es.len() {
            if post[i].key@ == e.key@ {
                assert(seq_has_key(es, e.key@));
            }
        }
    }
    assert(post[es.len() as int].key@ == e.key@);
    assert(seq_has_key(post, e.key@));
    lemma_entry_at(post, es.len() as int);
    assert forall|k: Seq<char>|
        k != e.key@ implies (#[trigger] seq_has_key(post, k) <==> seq_has_key(es, k)) by {
        if seq_has_key(post, k) {
            let i = choose|i: int| 0 <= i < post.len() && post[i].key@ == k;
            assert(i < es.len());
            assert(es[i].key@ == k);
            assert(seq_has_key(es, k));
        }
        if seq_has_key(es, k) {
            let i = choose|i: int| 0 <= i < es.len() && es[i].key@ == k;
            assert(post[i].key@ == k);
            assert(seq_has_key(post, k));
        }
    }
    assert forall|k: Seq<char>|
        k != e.key@ && #[trigger] seq_has_key(es, k) implies seq_index_of(post, k)
            == seq_index_of(es, k) by {
        let i = seq_index_of(es, k);
        assert(0 <= i < es.len() && es[i].key@ == k);
        lemma_entry_at(es, i);
        assert(post[i].key@ == k);
        lemma_entry_at(post, i);
    }
}

/// Replacing the entry at `i` by one under the same key keeps the keys
/// unique, keeps every key's presence, and leaves every other key's entry
/// where it was.
proof fn lemma_update(es: Seq<GrtEntry>, i: int, e: GrtEntry)
    requires
        keys_unique(es),
        0 <= i < es.len(),
        e.key@ == es[i].key@,
    ensures
        keys_unique(es.update(i, e)),
        forall|k: Seq<char>| #[trigger] seq_has_key(es.update(i, e), k) <==> seq_has_key(es, k),
        seq_index_of(es.update(i, e), e.key@) == i,
        forall|k: Seq<char>|
            k != e.key@ && #[trigger] seq_has_key(es, k) ==> seq_index_of(es.update(i, e), k)
                == seq_index_of(es, k),
{
    let post = es.update(i, e);
    assert forall|p: int, q: int| 0 <= p < q < post.len() implies post[p].key@ != post[q].key@ by {
        assert(es[p].key@ != es[q].key@);
        if p == i {
            assert(post[p].key@ == es[i].key@);
        }
        if q == i {
            assert(post[q].key@ == es[i].key@);
        }
    }
    assert(post[i].key@ == e.key@);
    lemma_entry_at(post, i);
    assert forall|k: Seq<char>| #[trigger] seq_has_key(post, k) <==> seq_has_key(es, k) by {
        if seq_has_key(post, k) {
            let p = choose|p: int| 0 <= p < post.len() && post[p].key@ == k;
            if p == i {
                assert(es[i].key@ == k);
            } else {
                assert(es[p].key@ == k);
            }
            assert(seq_has_key(es, k));
        }
        if seq_has_key(es, k) {
            let p = choose|p: int| 0 <= p < es.len() && es[p].key@ == k;
            if p == i {
                assert(post[i].key@ == k);
            } else {
                assert(post[p].key@ == k);
            }
            assert(seq_has_key(post, k));
        }
    }
    assert forall|k: Seq<char>|
        k != e.key@ && #[trigger] seq_has_key(es, k) implies seq_index_of(post, k)
            == seq_index_of(es, k) by {
        let p = seq_index_of(es, k);
        assert(0 <= p < es.len() && es[p].key@ == k);
        lemma_entry_at(es, p);
        assert(p != i);
        assert(post[p].key@ == k);
        lemma_entry_at(post, p);
    }
}

/// Find the index of the entry registered under `key`, if any.
fn find_index(reg: &Vec<GrtEntry>, key: &String) -> (r: Option<usize>)
    ensures
        r matches Some(i) ==> i < reg@.len() && reg@[i as int].key@ == key@,
        r is None ==> forall|i: int| 0 <= i < reg@.len() ==> reg@[i].key@ != key@,
{
    let n = reg.len();
    let mut i: usize = 0;
    while i < n
        invariant
            n == reg@.len(),
            i <= n,
            forall|j: int| 0 <= j < i ==> reg@[j].key@ != key@,
        decreases n - i,
    {
        if reg[i].key == *key {
            return Some(i);
        }
        i = i + 1;
    }
    None
}

/// The Global Reference Tracker: absent until `init`, present until
/// `destroy`.
pub struct Grt {
    registry: Option<Vec<GrtEntry>>,
}

impl Grt {
    /// Whether the tracker is present, that is, between `init` and
    /// `destroy`.
    pub closed spec fn is_present(self) -> bool {
        self.registry is Some
    }

    spec fn entries(self) -> Seq<GrtEntry> {
        self.registry->0@
    }

    /// How many registrations the present tracker holds.
    pub closed spec fn num_entries(self) -> nat {
        self.entries().len()
    }

    /// Whether some value is registered under the key `k`.
    pub closed spec fn has_key(self, k: Seq<char>) -> bool {
        seq_has_key(self.entries(), k)
    }

    /// The tag of the type registered under `k`; meaningful when
    /// [`Self::has_key`] holds.
    pub closed spec fn tag_at(self, k: Seq<char>) -> TypeTag {
        self.entries()[seq_index_of(self.entries(), k)].tag
    }

    /// The container registered under `k`; meaningful when
    /// [`Self::has_key`] holds.
    pub closed spec fn mutex_at(self, k: Seq<char>) -> KMutex<Erased> {
        self.entries()[seq_index_of(self.entries(), k)].mutex
    }

    /// The tracker keeps its keys unique, so each key names one entry.
    pub closed spec fn wf(self) -> bool {
        self.is_present() ==> keys_unique(self.entries())
    }

    /// Whether no registered container is currently locked.
    pub open spec fn all_unlocked(self) -> bool {
        forall|k: Seq<char>| #[trigger] self.has_key(k) ==> !self.mutex_at(k).is_locked()
    }

    /// The absent tracker, the state before `init`.
    pub fn new() -> (r: Grt)
        ensures
            !r.is_present(),
            r.wf(),
    {
        Grt { registry: None }
    }

    /// Publish an empty registry.
    ///
    /// Initialising twice is a lifecycle misuse and reports
    /// `GrtAlreadyExists`, leaving the present tracker untouched.
    pub fn init(&mut self) -> (r: Result<(), GrtError>)
        requires
            old(self).wf(),
        ensures
            final(self).wf(),
            old(self).is_present() ==> (r matches Err(e) && e == GrtError::GrtAlreadyExists
                && *final(self) == *old(self)),
            !old(self).is_present() ==> (r is Ok && final(self).is_present()
                && final(self).num_entries() == 0 && (forall|k: Seq<char>|
                !final(self).has_key(k)) && final(self).all_unlocked()),
    {
        if self.registry.is_some() {
            return Err(GrtError::GrtAlreadyExists);
        }
        self.registry = Some(Vec::new());
        Ok(())
    }

    /// Register `data` under `key`, wrapping it in a fresh [`KMutex`].
    ///
    /// This is the unchecked path: an existing entry under `key` is
    /// replaced, and the replaced entry's container is finalised — its
    /// allocation returns to the pool rather than leaking.  An absent
    /// tracker reports `GrtIsNull`; a failure to construct the container
    /// is passed through.  Replacing an entry whose primitive is held
    /// would tear the value out from under its guard, so that case is
    /// excluded.
    pub fn register_mutex<T: Erasable>(
        &mut self,
        pool: &mut KMAlloc,
        irql: u8,
        key: &str,
        data: T,
    ) -> (r: Result<(), GrtError>)
        requires
            old(self).wf(),
            old(pool).wf(),
            old(self).is_present() && old(self).has_key(key@)
                ==> !old(self).mutex_at(key@).is_locked(),
        ensures
            final(self).wf(),
            final(pool).wf(),
            !old(self).is_present() ==> (r matches Err(e) && e == GrtError::GrtIsNull
                && *final(self) == *old(self) && *final(pool) == *old(pool)),
            old(self).is_present() && irql > DISPATCH_LEVEL ==> (r matches Err(e)
                && e == GrtError::DriverMutexError(DriverMutexError::IrqlTooHigh)
                && *final(self) == *old(self) && *final(pool) == *old(pool)),
            old(self).is_present() && irql <= DISPATCH_LEVEL && old(pool).available() == 0
                ==> (r matches Err(e)
                && e == GrtError::DriverMutexError(DriverMutexError::PagedPoolAllocFailed)
                && *final(self) == *old(self) && *final(pool) == *old(pool)),
            old(self).is_present() && irql <= DISPATCH_LEVEL && old(pool).available() > 0
                ==> (r is Ok && final(self).is_present() && final(self).has_key(key@)
                && final(self).tag_at(key@) == T::tag()
                && final(self).mutex_at(key@) == KMutex::<Erased>::holding(data.erase_spec())
                && (forall|k: Seq<char>|
                    k != key@ ==> (#[trigger] final(self).has_key(k) <==> old(self).has_key(k)))
                && (forall|k: Seq<char>|
                    k != key@ && #[trigger] old(self).has_key(k)
                        ==> final(self).tag_at(k) == old(self).tag_at(k)
                            && final(self).mutex_at(k) == old(self).mutex_at(k))),
            old(self).is_present() && irql <= DISPATCH_LEVEL && old(pool).available() > 0
                && old(self).has_key(key@) ==> *final(pool) == *old(pool)
                && final(self).num_entries() == old(self).num_entries(),
            old(self).is_present() && irql <= DISPATCH_LEVEL && old(pool).available() > 0
                && !old(self).has_key(key@) ==> *final(pool) == old(pool).after_alloc()
                && final(pool).available() == old(pool).available() - 1
                && final(pool).outstanding() == old(pool).outstanding() + 1
                && final(self).num_entries() == old(self).num_entries() + 1,
    {
        let key_owned = key.to_owned();
        let tag = T::tag_exec();
        match &mut self.registry {
            None => Err(GrtError::GrtIsNull),
            Some(reg) => {
                let m = match KMutex::new(pool, irql, data.erase()) {
                    Ok(m) => m,
                    Err(e) => {
                        return Err(GrtError::DriverMutexError(e));
                    },
                };
                match find_index(reg, &key_owned) {
                    Some(i) => {
                        proof {
                            lemma_entry_at(old(self).entries(), i as int);
                        }
                        let mut prior = GrtEntry { key: key_owned, tag, mutex: m };
                        core::mem::swap(&mut reg[i], &mut prior);
                        let GrtEntry { key: _prior_key, tag: _prior_tag, mutex: prior_mutex } =
                            prior;
                        prior_mutex.finalize(pool);
                        proof {
                            crate::pool::lemma_create_then_finalize_frees_once(*old(pool));
                            lemma_update(
                                old(self).entries(),
                                i as int,
                                GrtEntry {
                                    key: key_owned,
                                    tag,
                                    mutex: KMutex::<Erased>::holding(data.erase_spec()),
                                },
                            );
                        }
                        Ok(())
                    },
                    None => {
                        reg.push(GrtEntry { key: key_owned, tag, mutex: m });
                        proof {
                            lemma_push(
                                old(self).entries(),
                                GrtEntry {
                                    key: key_owned,
                                    tag,
                                    mutex: KMutex::<Erased>::holding(data.erase_spec()),
                                },
                            );
                        }
                        Ok(())
                    },
                }
            },
        }
    }
    /// Register `data` under `key`, failing if the key is already taken.
    ///
    /// The checked path: the container is constructed first, exactly as on
    /// the unchecked path, and when `key` turns out to be taken it is
    /// finalised again and `KeyExists` is reported — the existing entry is
    /// left untouched and the pool account is unchanged.
    pub fn register_mutex_checked<T: Erasable>(
        &mut self,
        pool: &mut KMAlloc,
        irql: u8,
        key: &str,
        data: T,
    ) -> (r: Result<(), GrtError>)
        requires
            old(self).wf(),
            old(pool).wf(),
        ensures
            final(self).wf(),
            final(pool).wf(),
            !old(self).is_present() ==> (r matches Err(e) && e == GrtError::GrtIsNull
                && *final(self) == *old(self) && *final(pool) == *old(pool)),
            old(self).is_present() && irql > DISPATCH_LEVEL ==> (r matches Err(e)
                && e == GrtError::DriverMutexError(DriverMutexError::IrqlTooHigh)
                && *final(self) == *old(self) && *final(pool) == *old(pool)),
            old(self).is_present() && irql <= DISPATCH_LEVEL && old(pool).available() == 0
                ==> (r matches Err(e)
                && e == GrtError::DriverMutexError(DriverMutexError::PagedPoolAllocFailed)
                && *final(self) == *old(self) && *final(pool) == *old(pool)),
            old(self).is_present() && irql <= DISPATCH_LEVEL && old(pool).available() > 0
                && old(self).has_key(key@) ==> (r matches Err(e) && e == GrtError::KeyExists
                && *final(self) == *old(self) && *final(pool) == *old(pool)),
            old(self).is_present() && irql <= DISPATCH_LEVEL && old(pool).available() > 0
                && !old(self).has_key(key@) ==> (r is Ok && final(self).is_present()
                && final(self).has_key(key@) && final(self).tag_at(key@) == T::tag()
                && final(self).mutex_at(key@) == KMutex::<Erased>::holding(data.erase_spec())
                && final(self).num_entries() == old(self).num_entries() + 1
                && *final(pool) == old(pool).after_alloc()
                && final(pool).available() == old(pool).available() - 1
                && final(pool).outstanding() == old(pool).outstanding() + 1
                && (forall|k: Seq<char>|
                    k != key@ ==> (#[trigger] final(self).has_key(k) <==> old(self).has_key(k)))
                && (forall|k: Seq<char>|
                    k != key@ && #[trigger] old(self).has_key(k)
                        ==> final(self).tag_at(k) == old(self).tag_at(k)
                            && final(self).mutex_at(k) == old(self).mutex_at(k))),
    {
        let key_owned = key.to_owned();
        let tag = T::tag_exec();
        match &mut self.registry {
            None => Err(GrtError::GrtIsNull),
            Some(reg) => {
                let m = match KMutex::new(pool, irql, data.erase()) {
                    Ok(m) => m,
                    Err(e) => {
                        return Err(GrtError::DriverMutexError(e));
                    },
                };
                match find_index(reg, &key_owned) {
                    Some(i) => {
                        proof {
                            lemma_entry_at(old(self).entries(), i as int);
                            crate::pool::lemma_create_then_finalize_frees_once(*old(pool));
                        }
                        m.finalize(pool);
                        Err(GrtError::KeyExists)
                    },
                    None => {
                        reg.push(GrtEntry { key: key_owned, tag, mutex: m });
                        proof {
                            lemma_push(
                                old(self).entries(),
                                GrtEntry {
                                    key: key_owned,
                                    tag,
                                    mutex: KMutex::<Erased>::holding(data.erase_spec()),
                                },
                            );
                        }
                        Ok(())
                    },
                }
            },
        }
    }

    /// Retrieve the container registered under `key` for the type `T`.
    ///
    /// The stored tag is checked against `T`'s: a mismatch reports
    /// `DowncastError` rather than reinterpreting the value.  On success
    /// the caller holds the registered container itself and may lock it in
    /// place; every other entry stays exactly where it was.
    pub fn get_kmutex<T: Erasable>(&mut self, key: &str) -> (r: Result<
        &mut KMutex<Erased>,
        GrtError,
    >)
        requires
            old(self).wf(),
        ensures
            final(self).wf(),
            !old(self).is_present() ==> (r matches Err(e) && e == GrtError::GrtIsNull
                && *final(self) == *old(self)),
            old(self).is_present() && old(self).num_entries() == 0 ==> (r matches Err(e)
                && e == GrtError::GrtIsEmpty && *final(self) == *old(self)),
            old(self).is_present() && old(self).num_entries() > 0 && !old(self).has_key(key@)
                ==> (r matches Err(e) && e == GrtError::KeyNotFound
                && *final(self) == *old(self)),
            old(self).is_present() && old(self).has_key(key@)
                && old(self).tag_at(key@) != T::tag()
                ==> (r matches Err(e) && e == GrtError::DowncastError
                && *final(self) == *old(self)),
            old(self).is_present() && old(self).has_key(key@)
                && old(self).tag_at(key@) == T::tag()
                ==> (r matches Ok(m) && *m == old(self).mutex_at(key@)
                && final(self).is_present()
                && final(self).num_entries() == old(self).num_entries()
                && (forall|k: Seq<char>|
                    #[trigger] final(self).has_key(k) <==> old(self).has_key(k))
                && (forall|k: Seq<char>|
                    #[trigger] old(self).has_key(k)
                        ==> final(self).tag_at(k) == old(self).tag_at(k))
                && (forall|k: Seq<char>|
                    k != key@ && #[trigger] old(self).has_key(k)
                        ==> final(self).mutex_at(k) == old(self).mutex_at(k))
                && final(self).mutex_at(key@) == *final(m)),
    {
        let key_owned = key.to_owned();
        let t = T::tag_exec();
        match &mut self.registry {
            None => Err(GrtError::GrtIsNull),
            Some(reg) => {
                if reg.len() == 0 {
                    return Err(GrtError::GrtIsEmpty);
                }
                match find_index(reg, &key_owned) {
                    None => Err(GrtError::KeyNotFound),
                    Some(i) => {
                        proof {
                            lemma_entry_at(old(self).entries(), i as int);
                        }
                        let tags_match = reg[i].tag == t;
                        if !tags_match {
                            return Err(GrtError::DowncastError);
                        }
                        let ret = &mut reg[i].mutex;
                        proof {
                            lemma_update(
                                old(self).entries(),
                                i as int,
                                GrtEntry { mutex: *final(ret), ..old(self).entries()[i as int] },
                            );
                        }
                        Ok(ret)
                    },
                }
            },
        }
    }

    /// Withdraw the registry and finalise every contained container,
    /// draining all protected values and returning their allocations to
    /// the pool.
    ///
    /// The registry is withdrawn before anything is freed, so a caller
    /// arriving afterwards finds the tracker absent instead of a freed
    /// registry.  Destroying while some container's primitive is held
    /// would free the value out from under its guard, so that case is
    /// excluded.
    pub fn destroy(&mut self, pool: &mut KMAlloc) -> (r: Result<(), GrtError>)
        requires
            old(self).wf(),
            old(pool).wf(),
            old(self).is_present() ==> old(self).all_unlocked(),
            old(self).is_present() ==> old(pool).outstanding() >= old(self).num_entries(),
        ensures
            final(self).wf(),
            final(pool).wf(),
            !old(self).is_present() ==> (r matches Err(e) && e == GrtError::GrtIsNull
                && *final(self) == *old(self) && *final(pool) == *old(pool)),
            old(self).is_present() ==> (r is Ok && !final(self).is_present()
                && final(pool).outstanding()
                    == old(pool).outstanding() - old(self).num_entries()
                && final(pool).available()
                    == old(pool).available() + old(self).num_entries()),
    {
        match self.registry.take() {
            None => Err(GrtError::GrtIsNull),
            Some(mut reg) => {
                // The registry is already withdrawn here: the tracker
                // reads as absent while the entries are being freed.
                proof {
                    assert forall|i: int| 0 <= i < reg@.len() implies !reg@[i].mutex.is_locked()
                    by {
                        lemma_entry_at(old(self).entries(), i);
                        assert(old(self).has_key(old(self).entries()[i].key@));
                    }
                }
                let ghost n = reg@.len();
                while reg.len() > 0
                    invariant
                        reg@.len() <= n,
                        forall|i: int| 0 <= i < reg@.len() ==> !reg@[i].mutex.is_locked(),
                        pool.wf(),
                        old(pool).outstanding() >= n,
                        pool.outstanding() == old(pool).outstanding() - (n - reg@.len()),
                        pool.available() == old(pool).available() + (n - reg@.len()),
                    decreases reg@.len(),
                {
                    let e = reg.pop().unwrap();
                    let GrtEntry { key: _key, tag: _tag, mutex } = e;
                    mutex.finalize(pool);
                }
                Ok(())
            },
        }
    }
}

} // verus!
