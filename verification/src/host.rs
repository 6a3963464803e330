//! Model of the host's handle service, and the move-only handle wrappers
//! built over it.
//!
//! The host owns every memory block behind a parameter value and hands the
//! plugin opaque identifiers for them.  `ByteStore` captures exactly what
//! the plugin may rely on: which identifiers are live and what bytes each
//! one holds.  A `FlatHandle` is the plugin's claim on one such block; it
//! cannot be copied, so disposing it twice is unwritable, and the only way
//! to keep a block alive past a call is to give the handle back to the
//! host in raw form (`into_raw`) without running disposal.

use vstd::prelude::*;
use vstd::pervasive::VecAdditionalExecFns;
use vstd::pervasive::unreached;
use crate::error::Error;

verus! {

/// The host's table of allocated memory blocks, as the plugin may observe
/// it: a finite map from handle identifier to contents, a bound below
/// which every identifier ever handed out stays, and the allocation limit
/// that stands in for the host running out of memory.
pub struct ByteStore {
    blocks: Vec<Option<Vec<u8>>>,
    limit: usize,
}

impl ByteStore {
    /// The live blocks: handle identifier to the bytes it holds.
    pub closed spec fn contents(&self) -> Map<int, Seq<u8>> {
        Map::new(
            |i: int| 0 <= i < self.blocks@.len() && self.blocks@[i] is Some,
            |i: int| self.blocks@[i]->0@,
        )
    }

    /// Identifiers at or above this bound have never been handed out.
    pub closed spec fn next_id(&self) -> int {
        self.blocks@.len() as int
    }

    /// How many identifiers the host is willing to hand out in all.
    pub closed spec fn limit_spec(&self) -> int {
        self.limit as int
    }

    /// Whether the identifier names a block the host still recognizes.
    pub open spec fn live(&self, h: usize) -> bool {
        self.contents().contains_key(h as int)
    }

    /// The bytes behind a live identifier.
    pub open spec fn at(&self, h: usize) -> Seq<u8> {
        self.contents()[h as int]
    }

    /// Whether one more allocation will succeed.
    pub open spec fn can_alloc(&self) -> bool {
        self.next_id() < self.limit_spec()
    }

    pub proof fn lemma_live_in_range(&self, h: usize)
        requires
            self.live(h),
        ensures
            0 <= h as int && (h as int) < self.next_id(),
    {
    }

    /// A fresh store with no live blocks, willing to allocate `limit`
    /// blocks in all.
    pub fn with_limit(limit: usize) -> (s: ByteStore)
        ensures
            s.contents() == Map::<int, Seq<u8>>::empty(),
            s.next_id() == 0,
            s.limit_spec() == limit,
    {
        let s = ByteStore { blocks: Vec::new(), limit };
        proof {
            assert(s.contents() =~= Map::<int, Seq<u8>>::empty());
        }
        s
    }

    /// Host allocation: a new block holding `bytes`, under an identifier
    /// never handed out before.  Fails exactly when the limit is reached,
    /// and then changes nothing.
    pub fn allocate(&mut self, bytes: Vec<u8>) -> (r: Result<usize, Error>)
        ensures
            match r {
                Ok(h) => {
                    &&& old(self).can_alloc()
                    &&& h as int == old(self).next_id()
                    &&& !old(self).contents().contains_key(h as int)
                    &&& final(self).contents() == old(self).contents().insert(h as int, bytes@)
                    &&& final(self).next_id() == old(self).next_id() + 1
                    &&& final(self).limit_spec() == old(self).limit_spec()
                },
                Err(e) => {
                    &&& e == Error::OutOfMemory
                    &&& !old(self).can_alloc()
                    &&& *final(self) == *old(self)
                },
            },
    {
        if self.blocks.len() < self.limit {
            let h = self.blocks.len();
            let ghost pre = *self;
            self.blocks.push(Some(bytes));
            proof {
                assert(self.contents() =~= pre.contents().insert(h as int, bytes@));
            }
            Ok(h)
        } else {
            Err(Error::OutOfMemory)
        }
    }

    /// Whether `h` is live, decided at run time.
    pub fn is_live(&self, h: usize) -> (r: bool)
        ensures
            r == self.live(h),
    {
        if h < self.blocks.len() {
            self.blocks[h].is_some()
        } else {
            false
        }
    }

    /// Whether `h` was ever handed out, decided at run time.
    pub fn is_known(&self, h: usize) -> (r: bool)
        ensures
            r == ((h as int) < self.next_id()),
    {
        h < self.blocks.len()
    }

    /// Host disposal: the block behind `h` is released and `h` is never
    /// recognized again.
    pub fn dispose(&mut self, h: usize)
        requires
            old(self).live(h),
        ensures
            final(self).contents() == old(self).contents().remove(h as int),
            final(self).next_id() == old(self).next_id(),
            final(self).limit_spec() == old(self).limit_spec(),
    {
        proof {
            self.lemma_live_in_range(h);
        }
        let ghost pre = *self;
        self.blocks.set(h, None);
        proof {
            assert(self.contents() =~= pre.contents().remove(h as int));
        }
    }

    /// A copy of the bytes behind a live identifier.
    pub fn read(&self, h: usize) -> (r: Vec<u8>)
        requires
            self.live(h),
        ensures
            r@ == self.at(h),
    {
        proof {
            self.lemma_live_in_range(h);
        }
        match &self.blocks[h] {
            Some(v) => copy_bytes(v),
            None => unreached(),
        }
    }

    /// The byte length of a live block.
    pub fn size(&self, h: usize) -> (r: usize)
        requires
            self.live(h),
        ensures
            r == self.at(h).len(),
    {
        proof {
            self.lemma_live_in_range(h);
        }
        match &self.blocks[h] {
            Some(v) => v.len(),
            None => unreached(),
        }
    }

    /// Borrow the bytes behind a live identifier.
    pub fn borrow_bytes<'a>(&'a self, h: usize) -> (r: &'a Vec<u8>)
        requires
            self.live(h),
        ensures
            r@ == self.at(h),
    {
        proof {
            self.lemma_live_in_range(h);
        }
        match &self.blocks[h] {
            Some(v) => v,
            None => unreached(),
        }
    }

    /// Overwrite the bytes behind a live identifier.  No other block
    /// changes.
    pub fn write(&mut self, h: usize, bytes: Vec<u8>)
        requires
            old(self).live(h),
        ensures
            final(self).contents() == old(self).contents().insert(h as int, bytes@),
            final(self).next_id() == old(self).next_id(),
            final(self).limit_spec() == old(self).limit_spec(),
    {
        proof {
            self.lemma_live_in_range(h);
        }
        let ghost pre = *self;
        self.blocks.set(h, Some(bytes));
        proof {
            assert(self.contents() =~= pre.contents().insert(h as int, bytes@));
        }
    }
}

/// A byte-for-byte copy of a byte vector.
pub fn copy_bytes(v: &Vec<u8>) -> (r: Vec<u8>)
    ensures
        r@ == v@,
{
    let mut r: Vec<u8> = Vec::new();
    let mut i: usize = 0;
    while i < v.len()
        invariant
            0 <= i <= v@.len(),
            r@ == v@.subrange(0, i as int),
        decreases v@.len() - i,
    {
        r.push(v[i]);
        proof {
            assert(r@ =~= v@.subrange(0, i + 1 as int));
        }
        i = i + 1;
    }
    proof {
        assert(r@ =~= v@);
    }
    r
}

/// A flat handle: ownership of one host block known to hold a serialized
/// value.  It cannot be copied; disposing it consumes it, so a second
/// disposal of the same wrapper cannot be written, and every borrowed use
/// ends in `into_raw`, which returns the identifier to the host without
/// releasing the block.
#[derive(Debug)]
pub struct FlatHandle {
    id: usize,
}

impl FlatHandle {
    /// The host identifier this wrapper owns.
    pub closed spec fn id_spec(&self) -> usize {
        self.id
    }

    /// Whether the wrapped identifier is live in the given store.
    pub open spec fn valid(&self, store: ByteStore) -> bool {
        store.live(self.id_spec())
    }

    /// Allocate a new block holding `bytes` and take ownership of it.
    /// Fails exactly when the host is out of memory, and then changes
    /// nothing.
    pub fn new(store: &mut ByteStore, bytes: Vec<u8>) -> (r: Result<FlatHandle, Error>)
        ensures
            match r {
                Ok(fh) => {
                    &&& old(store).can_alloc()
                    &&& !old(store).contents().contains_key(fh.id_spec() as int)
                    &&& final(store).contents() == old(store).contents().insert(
                        fh.id_spec() as int,
                        bytes@,
                    )
                    &&& final(store).next_id() == old(store).next_id() + 1
                    &&& final(store).limit_spec() == old(store).limit_spec()
                },
                Err(e) => {
                    &&& e == Error::OutOfMemory
                    &&& !old(store).can_alloc()
                    &&& *final(store) == *old(store)
                },
            },
    {
        match store.allocate(bytes) {
            Ok(h) => Ok(FlatHandle { id: h }),
            Err(e) => Err(e),
        }
    }

    /// Take ownership of a host-supplied identifier, after checking that
    /// the host still recognizes it.  An identifier never handed out is
    /// reported as `Generic`; one whose block is gone as
    /// `InternalStructDamaged`.
    pub fn from_raw(store: &ByteStore, id: usize) -> (r: Result<FlatHandle, Error>)
        ensures
            match r {
                Ok(fh) => store.live(id) && fh.id_spec() == id,
                Err(e) => {
                    &&& !store.live(id)
                    &&& e == (if id as int >= store.next_id() {
                        Error::Generic
                    } else {
                        Error::InternalStructDamaged
                    })
                },
            },
    {
        if !store.is_known(id) {
            Err(Error::Generic)
        } else if store.is_live(id) {
            Ok(FlatHandle { id })
        } else {
            Err(Error::InternalStructDamaged)
        }
    }

    /// Give the identifier back in raw form without releasing the block:
    /// the ownership-transfer primitive every borrowed-kind request ends
    /// with.
    pub fn into_raw(self) -> (r: usize)
        ensures
            r == self.id_spec(),
    {
        self.id
    }

    /// The raw identifier, without giving up ownership.
    pub fn as_raw(&self) -> (r: usize)
        ensures
            r == self.id_spec(),
    {
        self.id
    }

    /// Borrow the bytes behind the handle for the duration of the
    /// call.
    pub fn as_slice<'a>(&self, store: &'a ByteStore) -> (r: &'a [u8])
        requires
            self.valid(*store),
        ensures
            r@ == store.at(self.id_spec()),
    {
        store.borrow_bytes(self.id).as_slice()
    }

    /// A copy of the bytes behind the handle.
    pub fn to_vec(&self, store: &ByteStore) -> (r: Vec<u8>)
        requires
            self.valid(*store),
        ensures
            r@ == store.at(self.id_spec()),
    {
        store.read(self.id)
    }

    /// The byte length of the block behind the handle.
    pub fn size(&self, store: &ByteStore) -> (r: usize)
        requires
            self.valid(*store),
        ensures
            r == store.at(self.id_spec()).len(),
    {
        store.size(self.id)
    }

    /// Release the block exactly once.  Consuming `self` makes a second
    /// release of the same wrapper unwritable.
    pub fn dispose(self, store: &mut ByteStore)
        requires
            self.valid(*old(store)),
        ensures
            final(store).contents() == old(store).contents().remove(self.id_spec() as int),
            final(store).next_id() == old(store).next_id(),
            final(store).limit_spec() == old(store).limit_spec(),
    {
        store.dispose(self.id);
    }
}

/// The host's table of typed memory blocks: each live identifier holds
/// one value of `T` and the host's recursive lock count for it.  The
/// lock count models the host's demand that every lock be paired with
/// an unlock before the block may move.
pub struct TypedStore<T> {
    slots: Vec<Option<(T, u32)>>,
    limit: usize,
}

impl<T> TypedStore<T> {
    /// The live blocks: handle identifier to the value it holds.
    pub closed spec fn contents(&self) -> Map<int, T> {
        Map::new(
            |i: int| 0 <= i < self.slots@.len() && self.slots@[i] is Some,
            |i: int| (self.slots@[i]->0).0,
        )
    }

    /// The host's recursive lock count for a live identifier.
    pub closed spec fn lock_count(&self, h: usize) -> u32 {
        if 0 <= h < self.slots@.len() && self.slots@[h as int] is Some {
            (self.slots@[h as int]->0).1
        } else {
            0
        }
    }

    /// Identifiers at or above this bound have never been handed out.
    pub closed spec fn next_id(&self) -> int {
        self.slots@.len() as int
    }

    /// How many identifiers the host is willing to hand out in all.
    pub closed spec fn limit_spec(&self) -> int {
        self.limit as int
    }

    /// Whether the identifier names a block the host still recognizes.
    pub open spec fn live(&self, h: usize) -> bool {
        self.contents().contains_key(h as int)
    }

    /// The value behind a live identifier.
    pub open spec fn at(&self, h: usize) -> T {
        self.contents()[h as int]
    }

    /// Whether one more allocation will succeed.
    pub open spec fn can_alloc(&self) -> bool {
        self.next_id() < self.limit_spec()
    }

    pub proof fn lemma_live_in_range(&self, h: usize)
        requires
            self.live(h),
        ensures
            0 <= h as int && (h as int) < self.next_id(),
    {
    }

    /// A fresh store with no live blocks.
    pub fn with_limit(limit: usize) -> (s: TypedStore<T>)
        ensures
            s.contents() == Map::<int, T>::empty(),
            s.next_id() == 0,
            s.limit_spec() == limit,
    {
        let s = TypedStore { slots: Vec::new(), limit };
        proof {
            assert(s.contents() =~= Map::<int, T>::empty());
        }
        s
    }
}

/// A typed handle: the plugin's claim on one host block holding a value
/// of `T`.  Like [`FlatHandle`] it cannot be copied; disposal consumes
/// it, and `into_raw` returns the identifier to the host without
/// releasing the block.
#[derive(Debug)]
pub struct Handle {
    id: usize,
}

impl Handle {
    /// The host identifier this wrapper owns.
    pub closed spec fn id_spec(&self) -> usize {
        self.id
    }

    /// Whether the wrapped identifier is live in the given store.
    pub open spec fn valid<T>(&self, store: TypedStore<T>) -> bool {
        store.live(self.id_spec())
    }

    /// Allocate a new unlocked block holding `value` and take ownership
    /// of it.  Fails exactly when the host is out of memory, and then
    /// changes nothing.
    pub fn new<T>(store: &mut TypedStore<T>, value: T) -> (r: Result<Handle, Error>)
        ensures
            match r {
                Ok(h) => {
                    &&& old(store).can_alloc()
                    &&& !old(store).contents().contains_key(h.id_spec() as int)
                    &&& final(store).contents() == old(store).contents().insert(
                        h.id_spec() as int,
                        value,
                    )
                    &&& final(store).lock_count(h.id_spec()) == 0
                    &&& forall|o: usize| o != h.id_spec() ==> final(store).lock_count(o) == old(
                        store,
                    ).lock_count(o)
                    &&& final(store).next_id() == old(store).next_id() + 1
                    &&& final(store).limit_spec() == old(store).limit_spec()
                },
                Err(e) => {
                    &&& e == Error::OutOfMemory
                    &&& !old(store).can_alloc()
                    &&& *final(store) == *old(store)
                },
            },
    {
        if store.slots.len() < store.limit {
            let h = store.slots.len();
            let ghost pre = *store;
            store.slots.push(Some((value, 0)));
            proof {
                assert(store.contents() =~= pre.contents().insert(h as int, value));
                assert(forall|o: usize|
                    o != h ==> store.lock_count(o) == pre.lock_count(o));
            }
            Ok(Handle { id: h })
        } else {
            Err(Error::OutOfMemory)
        }
    }

    /// Take ownership of a host-supplied identifier as it stands; its
    /// validity is checked by each operation, as the host does.
    pub fn from_raw(id: usize) -> (r: Handle)
        ensures
            r.id_spec() == id,
    {
        Handle { id }
    }

    /// Give the identifier back in raw form without releasing the
    /// block.
    pub fn into_raw(self) -> (r: usize)
        ensures
            r == self.id_spec(),
    {
        self.id
    }

    /// The raw identifier, without giving up ownership.
    pub fn as_raw(&self) -> (r: usize)
        ensures
            r == self.id_spec(),
    {
        self.id
    }

    /// Replace the value behind the handle; the old value is dropped.
    /// Fails exactly on a dead handle, and then changes nothing.
    pub fn set<T>(&self, store: &mut TypedStore<T>, value: T) -> (r: Result<(), Error>)
        ensures
            match r {
                Ok(()) => {
                    &&& old(store).live(self.id_spec())
                    &&& final(store).contents() == old(store).contents().insert(
                        self.id_spec() as int,
                        value,
                    )
                    &&& forall|o: usize| final(store).lock_count(o) == old(store).lock_count(o)
                    &&& final(store).next_id() == old(store).next_id()
                    &&& final(store).limit_spec() == old(store).limit_spec()
                },
                Err(e) => {
                    &&& e == Error::InvalidIndex
                    &&& !old(store).live(self.id_spec())
                    &&& *final(store) == *old(store)
                },
            },
    {
        if self.id < store.slots.len() {
            let locks = match &store.slots[self.id] {
                Some(slot) => slot.1,
                None => {
                    return Err(Error::InvalidIndex);
                },
            };
            let ghost pre = *store;
            store.slots.set(self.id, Some((value, locks)));
            proof {
                assert(store.contents() =~= pre.contents().insert(self.id as int, value));
                assert(forall|o: usize| store.lock_count(o) == pre.lock_count(o));
            }
            Ok(())
        } else {
            Err(Error::InvalidIndex)
        }
    }

    /// Take one recursive host lock on the block.  Every lock taken
    /// must be paired with an `unlock` before the handle is disposed.
    /// Fails exactly on a dead handle, and then changes nothing.
    pub fn lock<T>(&self, store: &mut TypedStore<T>) -> (r: Result<(), Error>)
        requires
            old(store).live(self.id_spec()) ==> old(store).lock_count(self.id_spec())
                < u32::MAX,
        ensures
            match r {
                Ok(()) => {
                    &&& old(store).live(self.id_spec())
                    &&& final(store).contents() == old(store).contents()
                    &&& final(store).lock_count(self.id_spec()) == old(store).lock_count(
                        self.id_spec(),
                    ) + 1
                    &&& forall|o: usize| o != self.id_spec() ==> final(store).lock_count(o) == old(
                        store,
                    ).lock_count(o)
                    &&& final(store).next_id() == old(store).next_id()
                    &&& final(store).limit_spec() == old(store).limit_spec()
                },
                Err(e) => {
                    &&& e == Error::InvalidIndex
                    &&& !old(store).live(self.id_spec())
                    &&& *final(store) == *old(store)
                },
            },
    {
        if self.id < store.slots.len() {
            if store.slots[self.id].is_none() {
                return Err(Error::InvalidIndex);
            }
            let ghost pre = *store;
            match store.slots.remove(self.id) {
                Some((value, locks)) => {
                    store.slots.insert(self.id, Some((value, locks + 1)));
                    proof {
                        assert(store.slots@ =~= pre.slots@.update(
                            self.id as int,
                            Some(((pre.slots@[self.id as int]->0).0, (pre.lock_count(self.id) + 1) as u32)),
                        ));
                        assert(store.contents() =~= pre.contents());
                        assert(forall|o: usize|
                            o != self.id ==> store.lock_count(o) == pre.lock_count(o));
                    }
                    Ok(())
                },
                None => unreached(),
            }
        } else {
            Err(Error::InvalidIndex)
        }
    }

    /// Release one recursive host lock taken by `lock`.
    pub fn unlock<T>(&self, store: &mut TypedStore<T>)
        requires
            old(store).live(self.id_spec()),
            old(store).lock_count(self.id_spec()) > 0,
        ensures
            final(store).contents() == old(store).contents(),
            final(store).lock_count(self.id_spec()) == old(store).lock_count(self.id_spec())
                - 1,
            forall|o: usize| o != self.id_spec() ==> final(store).lock_count(o) == old(
                store,
            ).lock_count(o),
            final(store).next_id() == old(store).next_id(),
            final(store).limit_spec() == old(store).limit_spec(),
    {
        proof {
            store.lemma_live_in_range(self.id);
        }
        let ghost pre = *store;
        match store.slots.remove(self.id) {
            Some((value, locks)) => {
                store.slots.insert(self.id, Some((value, locks - 1)));
                proof {
                    assert(store.slots@ =~= pre.slots@.update(
                        self.id as int,
                        Some(((pre.slots@[self.id as int]->0).0, (pre.lock_count(self.id) - 1) as u32)),
                    ));
                    assert(store.contents() =~= pre.contents());
                    assert(forall|o: usize|
                        o != self.id ==> store.lock_count(o) == pre.lock_count(o));
                }
            },
            None => {
                proof {
                    assert(false);
                }
            },
        }
    }

    /// Read the value behind the handle.  Fails exactly on a dead
    /// handle.
    pub fn get<'a, T>(&self, store: &'a TypedStore<T>) -> (r: Result<&'a T, Error>)
        ensures
            match r {
                Ok(v) => store.live(self.id_spec()) && *v == store.at(self.id_spec()),
                Err(e) => e == Error::InvalidIndex && !store.live(self.id_spec()),
            },
    {
        if self.id < store.slots.len() {
            match &store.slots[self.id] {
                Some(slot) => Ok(&slot.0),
                None => Err(Error::InvalidIndex),
            }
        } else {
            Err(Error::InvalidIndex)
        }
    }

    /// Release the block exactly once.  Consuming `self` makes a second
    /// release of the same wrapper unwritable.
    pub fn dispose<T>(self, store: &mut TypedStore<T>)
        requires
            self.valid(*old(store)),
        ensures
            final(store).contents() == old(store).contents().remove(self.id_spec() as int),
            final(store).next_id() == old(store).next_id(),
            final(store).limit_spec() == old(store).limit_spec(),
    {
        proof {
            store.lemma_live_in_range(self.id);
        }
        let ghost pre = *store;
        store.slots.set(self.id, None);
        proof {
            assert(store.contents() =~= pre.contents().remove(self.id as int));
        }
    }
}

/// Exactly-once disposal: once an identifier is removed from the host's
/// table it is dead, so every later operation on it meets the dead-handle
/// clause of its contract and is rejected.
pub proof fn lemma_disposal_is_final(pre: ByteStore, post: ByteStore, h: usize)
    requires
        pre.live(h),
        post.contents() == pre.contents().remove(h as int),
    ensures
        !post.live(h),
{
}

/// Copy independence: a block freshly allocated by a copy is distinct
/// from its source, so overwriting the bytes behind the new identifier
/// leaves the source's bytes exactly as they were.
pub proof fn lemma_copy_independence(
    s0: ByteStore,
    s1: ByteStore,
    s2: ByteStore,
    src: usize,
    copy: usize,
    copied: Seq<u8>,
    rewritten: Seq<u8>,
)
    requires
        s0.live(src),
        !s0.contents().contains_key(copy as int),
        s1.contents() == s0.contents().insert(copy as int, copied),
        s2.contents() == s1.contents().insert(copy as int, rewritten),
    ensures
        s2.live(src),
        s2.at(src) == s0.at(src),
{
    assert(copy as int != src as int);
}

} // verus!
