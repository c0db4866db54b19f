use vstd::prelude::*;

verus! {

/// One entry of the dependency registry: an opaque handle filed under the
/// stable tag of its concrete type.
#[derive(Debug, Clone, Copy, PartialEq, Eq, Structural)]
pub struct DependencyEntry {
    /// Stable tag standing for the concrete type of the dependency.
    pub tag: u64,
    /// Opaque handle to the registered instance.
    pub handle: u64,
}

/// Why a registration was refused.
#[derive(Debug, Clone, Copy, PartialEq, Eq, Structural)]
pub enum RegistryError {
    /// An entry of the same concrete type is already registered.  This is
    /// a programmer error; callers treat it as fatal.
    AlreadyRegistered,
}

/// A process-wide, append-only collection of opaque typed handles, at most
/// one per concrete type.  All operations are UI-thread-only by
/// convention; there is no internal locking.
#[derive(Debug)]
pub struct Registry {
    /// The entries, in registration order.
    pub entries: Vec<DependencyEntry>,
}

/// Whether the registry already holds an entry for `tag`.
pub open spec fn registry_has(entries: Seq<DependencyEntry>, tag: u64) -> bool {
    exists|i: int| 0 <= i < entries.len() && entries[i].tag == tag
}

/// The handle filed under `tag`, if any: the first entry of that tag in
/// registration order.
pub open spec fn registry_lookup(entries: Seq<DependencyEntry>, tag: u64) -> Option<u64>
    decreases entries.len(),
{
    if entries.len() == 0 {
        None
    } else if entries[0].tag == tag {
        Some(entries[0].handle)
    } else {
        registry_lookup(entries.drop_first(), tag)
    }
}

/// The registry's invariant: at most one entry per concrete type.
pub open spec fn registry_wf(entries: Seq<DependencyEntry>) -> bool {
    forall|i: int, j: int|
        0 <= i < j < entries.len() ==> (#[trigger] entries[i]).tag != (#[trigger] entries[j]).tag
}

/// A lookup succeeds exactly when some entry carries the tag.
pub proof fn lemma_lookup_has(entries: Seq<DependencyEntry>, tag: u64)
    ensures
        registry_lookup(entries, tag) is Some <==> registry_has(entries, tag),
    decreases entries.len(),
{
    if entries.len() > 0 {
        if entries[0].tag == tag {
        } else {
            lemma_lookup_has(entries.drop_first(), tag);
            if registry_has(entries.drop_first(), tag) {
                let i = choose|i: int|
                    0 <= i < entries.drop_first().len() && entries.drop_first()[i].tag == tag;
                assert(entries[i + 1].tag == tag);
            } else if registry_has(entries, tag) {
                let i = choose|i: int| 0 <= i < entries.len() && entries[i].tag == tag;
                assert(entries.drop_first()[i - 1].tag == tag);
            }
        }
    }
}

/// Appending a fresh tag leaves every earlier lookup unchanged and makes
/// the new handle the one filed under the new tag.  Together with the
/// contracts of `add` and `get`, this says that `get` returns exactly the
/// identity that was inserted.
pub proof fn lemma_get_after_add(entries: Seq<DependencyEntry>, tag: u64, handle: u64)
    requires
        !registry_has(entries, tag),
    ensures
        registry_lookup(entries.push(DependencyEntry { tag, handle }), tag) == Some(handle),
        forall|t: u64|
            t != tag ==> registry_lookup(entries.push(DependencyEntry { tag, handle }), t)
                == registry_lookup(entries, t),
    decreases entries.len(),
{
    let e = DependencyEntry { tag, handle };
    let pushed = entries.push(e);
    if entries.len() == 0 {
        assert(pushed[0] == e);
        assert(pushed.drop_first() =~= Seq::<DependencyEntry>::empty());
        assert forall|t: u64| t != tag implies registry_lookup(pushed, t) == registry_lookup(
            entries,
            t,
        ) by {
            assert(registry_lookup(pushed.drop_first(), t) == None::<u64>);
        }
    } else {
        assert(entries[0].tag != tag);
        assert(pushed[0] == entries[0]);
        assert forall|i: int|
            0 <= i < entries.drop_first().len() implies (#[trigger] entries.drop_first()[i]).tag
            != tag by {
            assert(entries[i + 1].tag != tag);
        }
        lemma_get_after_add(entries.drop_first(), tag, handle);
        assert(pushed.drop_first() =~= entries.drop_first().push(e));
        assert forall|t: u64| t != tag implies registry_lookup(pushed, t) == registry_lookup(
            entries,
            t,
        ) by {
            if entries[0].tag != t {
                assert(registry_lookup(pushed, t) == registry_lookup(pushed.drop_first(), t));
                assert(registry_lookup(entries, t) == registry_lookup(entries.drop_first(), t));
            }
        }
    }
}

impl Registry {
    /// A fresh, empty registry.
    pub fn new() -> (r: Registry)
        ensures
            r.entries@ =~= Seq::<DependencyEntry>::empty(),
    {
        Registry { entries: Vec::new() }
    }

    /// Whether an entry of the concrete type tagged `tag` is registered.
    pub fn has(&self, tag: u64) -> (r: bool)
        ensures
            r == registry_has(self.entries@, tag),
    {
        let mut i: usize = 0;
        while i < self.entries.len()
            invariant
                i <= self.entries.len(),
                forall|j: int| 0 <= j < i ==> (#[trigger] self.entries@[j]).tag != tag,
            decreases self.entries.len() - i,
        {
            if self.entries[i].tag == tag {
                return true;
            }
            i = i + 1;
        }
        false
    }

    /// Registers `handle` under `tag`.  Fails exactly when an entry of
    /// that concrete type already exists; the failure is a programmer
    /// error and is treated as fatal by callers.  On success the entry is
    /// appended and nothing else changes.
    pub fn add(&mut self, tag: u64, handle: u64) -> (r: Result<(), RegistryError>)
        requires
            registry_wf(old(self).entries@),
        ensures
            registry_wf(final(self).entries@),
            r is Err <==> registry_has(old(self).entries@, tag),
            r is Err ==> final(self).entries@ == old(self).entries@,
            r is Ok ==> final(self).entries@ == old(self).entries@.push(
                DependencyEntry { tag, handle },
            ),
            r is Ok ==> registry_lookup(final(self).entries@, tag) == Some(handle),
    {
        if self.has(tag) {
            Err(RegistryError::AlreadyRegistered)
        } else {
            proof {
                lemma_get_after_add(self.entries@, tag, handle);
            }
            self.entries.push(DependencyEntry { tag, handle });
            Ok(())
        }
    }

    /// The handle registered under `tag`, or `None`.  Never fails.
    pub fn try_get(&self, tag: u64) -> (r: Option<u64>)
        ensures
            r == registry_lookup(self.entries@, tag),
            r is Some <==> registry_has(self.entries@, tag),
    {
        proof {
            lemma_lookup_has(self.entries@, tag);
            assert(self.entries@.skip(0) =~= self.entries@);
        }
        let mut i: usize = 0;
        while i < self.entries.len()
            invariant
                i <= self.entries.len(),
                forall|j: int| 0 <= j < i ==> (#[trigger] self.entries@[j]).tag != tag,
                registry_lookup(self.entries@, tag) == registry_lookup(
                    self.entries@.skip(i as int),
                    tag,
                ),
            decreases self.entries.len() - i,
        {
            if self.entries[i].tag == tag {
                proof {
                    assert(self.entries@.skip(i as int)[0] == self.entries@[i as int]);
                }
                return Some(self.entries[i].handle);
            }
            proof {
                assert(self.entries@.skip(i as int).drop_first() =~= self.entries@.skip(
                    i as int + 1,
                ));
            }
            i = i + 1;
        }
        proof {
            assert(self.entries@.skip(self.entries@.len() as int)
                =~= Seq::<DependencyEntry>::empty());
        }
        None
    }

    /// The handle registered under `tag`.  Looking up a type that was
    /// never registered is a programmer error, so callers must know the
    /// entry is present.
    pub fn get(&self, tag: u64) -> (r: u64)
        requires
            registry_has(self.entries@, tag),
        ensures
            Some(r) == registry_lookup(self.entries@, tag),
    {
        proof {
            lemma_lookup_has(self.entries@, tag);
        }
        let r = self.try_get(tag);
        r.unwrap()
    }
}

} // verus!
