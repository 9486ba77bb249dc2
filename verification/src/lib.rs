//! File identity for open file references.
//!
//! Two different path strings can name the same file on disk (hardlinks,
//! repeated opens of one path), and comparing paths therefore produces false
//! negatives. The types here decide "same underlying file?" from OS metadata
//! instead: a [`Key`] holds the device number and inode number captured once
//! from an open file reference, and a [`Handle`] records that key together
//! with where its descriptor came from. Handle equality is defined by the key
//! alone, never by a path or a descriptor value.
//!
//! Opening files, querying metadata and owning descriptors are I/O and live
//! with the caller, who hands the captured numbers in as plain values; the
//! identity logic itself is verified.

use vstd::prelude::*;
use vstd::std_specs::cmp::PartialEqSpec;

verus! {

/// Identity of a file within the set of currently mounted volumes: device
/// number and inode number, captured once from an open file reference and
/// immutable thereafter. Two keys are equal exactly when they name the same
/// inode on the same device.
#[derive(Debug, PartialEq, Eq, Hash, Clone, Copy, Structural)]
pub struct Key {
    dev: u64,
    ino: u64,
}

impl Key {
    /// The device-number component.
    pub closed spec fn dev_spec(self) -> u64 {
        self.dev
    }

    /// The inode-number component.
    pub closed spec fn ino_spec(self) -> u64 {
        self.ino
    }

    /// Wraps the metadata captured from an open file reference.
    pub fn new(dev: u64, ino: u64) -> (k: Key)
        ensures
            k.dev_spec() == dev,
            k.ino_spec() == ino,
    {
        Key { dev, ino }
    }

    /// The raw device number.
    pub fn dev(&self) -> (d: u64)
        ensures
            d == self.dev_spec(),
    {
        self.dev
    }

    /// The raw inode number.
    pub fn ino(&self) -> (i: u64)
        ensures
            i == self.ino_spec(),
    {
        self.ino
    }
}

/// Two keys are equal exactly when both components agree: the same inode
/// number on the same device number.
pub proof fn lemma_key_eq_iff_components(k1: Key, k2: Key)
    ensures
        (k1 == k2) <==> (k1.dev_spec() == k2.dev_spec() && k1.ino_spec() == k2.ino_spec()),
{
}

/// Where a handle's file descriptor came from. Consulted exactly once, at
/// teardown: an owned descriptor is closed, while a standard stream's
/// descriptor belongs to the process's standard-stream machinery and must be
/// detached without closing.
#[derive(Debug, PartialEq, Eq, Clone, Copy, Structural)]
pub enum Origin {
    Owned,
    StandardStream,
}

/// The identity record of one open file reference: the key captured at open
/// time and the origin of the descriptor. Equality goes through the key
/// alone — the origin and the descriptor value play no part in it — so two
/// independent opens of the same underlying file compare equal.
#[derive(Debug)]
pub struct Handle {
    key: Key,
    origin: Origin,
}

impl Handle {
    /// The identity key captured when the handle was constructed.
    pub closed spec fn key_spec(self) -> Key {
        self.key
    }

    /// Where the handle's descriptor came from.
    pub closed spec fn origin_spec(self) -> Origin {
        self.origin
    }

    /// Wraps a captured key and a descriptor origin. The caller opens the
    /// file for read access and queries metadata on the open reference — not
    /// on the path, which could race with the open — and hands the captured
    /// numbers in as the key.
    pub fn new(key: Key, origin: Origin) -> (h: Handle)
        ensures
            h.key_spec() == key,
            h.origin_spec() == origin,
    {
        Handle { key, origin }
    }

    /// The raw device-number component of the identity key.
    pub fn dev(&self) -> (d: u64)
        ensures
            d == self.key_spec().dev_spec(),
    {
        self.key.dev
    }

    /// The raw inode-number component of the identity key.
    pub fn ino(&self) -> (i: u64)
        ensures
            i == self.key_spec().ino_spec(),
    {
        self.key.ino
    }

    /// A standalone copy of the identity key, decoupled from the handle's
    /// lifetime and usable in index structures without retaining the open
    /// file. Infallible: the key was already captured at construction.
    pub fn as_key(&self) -> (k: Key)
        ensures
            k == self.key_spec(),
    {
        self.key
    }

    /// The teardown decision: a handle that owns its descriptor closes it
    /// exactly once on drop, while a handle wrapping a standard stream must
    /// detach the descriptor without closing it, since the process as a
    /// whole still owns that stream.
    pub fn closes_on_drop(&self) -> (r: bool)
        ensures
            r == (self.origin_spec() == Origin::Owned),
    {
        match self.origin {
            Origin::Owned => true,
            Origin::StandardStream => false,
        }
    }
}

impl PartialEq for Handle {
    fn eq(&self, other: &Handle) -> (r: bool) {
        self.key == other.key
    }
}

impl Eq for Handle {}

impl vstd::std_specs::cmp::PartialEqSpecImpl for Handle {
    open spec fn obeys_eq_spec() -> bool {
        true
    }

    open spec fn eq_spec(&self, other: &Handle) -> bool {
        self.key_spec() == other.key_spec()
    }
}

/// Handle equality is decided by the identity key alone: two handles are
/// equal exactly when their keys are equal, whatever the origins or the
/// descriptor values behind them. Two independent opens of one path, or of
/// two paths joined by a hardlink, capture the same key and so compare
/// equal; opens of distinct files capture different keys and compare
/// unequal.
pub proof fn lemma_handle_eq_iff_same_key(h1: Handle, h2: Handle)
    ensures
        h1.eq_spec(&h2) <==> h1.key_spec() == h2.key_spec(),
{
}

/// Handle equality is an equivalence relation: reflexive, symmetric and
/// transitive.
pub proof fn lemma_handle_eq_equivalence(h1: Handle, h2: Handle, h3: Handle)
    ensures
        h1.eq_spec(&h1),
        h1.eq_spec(&h2) ==> h2.eq_spec(&h1),
        h1.eq_spec(&h2) && h2.eq_spec(&h3) ==> h1.eq_spec(&h3),
{
}

/// Equal handles carry equal keys, so every value derived from the key — the
/// raw components, a stored copy, a hash computed over the key — agrees
/// between them. This is what hash-based containers need: handles that
/// compare equal hash alike, because hashing reads nothing but the key.
pub proof fn lemma_equal_handles_equal_keys(h1: Handle, h2: Handle)
    requires
        h1.eq_spec(&h2),
    ensures
        h1.key_spec() == h2.key_spec(),
        h1.key_spec().dev_spec() == h2.key_spec().dev_spec(),
        h1.key_spec().ino_spec() == h2.key_spec().ino_spec(),
{
}

/// Key extraction is stable: the key is copied data, never re-queried, so
/// every copy taken from one handle equals every other, however many times
/// it is taken.
pub proof fn lemma_as_key_stable(h: Handle, k1: Key, k2: Key)
    requires
        k1 == h.key_spec(),
        k2 == h.key_spec(),
    ensures
        k1 == k2,
{
}

} // verus!
