use core::marker::PhantomData;
use vstd::prelude::*;

use crate::chunk::ChunkKind;

verus! {

/// Tag of identifiers of the video collection.
#[derive(Clone, Copy, Debug)]
pub struct Video;

/// Tag of identifiers of the audio collection.
#[derive(Clone, Copy, Debug)]
pub struct Audio;

/// A key that the store assigned to a chunk, tagged at the type level with
/// the collection it belongs to, so that keys of the two collections cannot be
/// mixed up.
#[derive(Debug)]
pub struct ChunkId<T> {
    id: u64,
    phantom: PhantomData<T>,
}

pub type VideoChunkId = ChunkId<Video>;

pub type AudioChunkId = ChunkId<Audio>;

impl<T> Clone for ChunkId<T> {
    fn clone(&self) -> (r: Self)
        ensures
            r.spec_key() == self.spec_key(),
    {
        ChunkId { id: self.id, phantom: PhantomData }
    }
}

impl<T> ChunkId<T> {
    pub closed spec fn spec_key(&self) -> u64 {
        self.id
    }

    /// The identifier of the record that the store keeps under `id`.
    pub fn new(id: u64) -> (r: ChunkId<T>)
        ensures
            r.spec_key() == id,
    {
        ChunkId { id, phantom: PhantomData }
    }

    /// The key the store assigned.
    pub fn key(&self) -> (r: u64)
        ensures
            r == self.spec_key(),
    {
        self.id
    }
}

/// An identifier of either collection, as it travels on the notification
/// channel: the variant tells which collection it belongs to.
#[derive(Debug)]
pub enum SomeChunkId {
    Video(VideoChunkId),
    Audio(AudioChunkId),
}

impl Clone for SomeChunkId {
    fn clone(&self) -> (r: Self)
        ensures
            r@ == self@,
    {
        match self {
            SomeChunkId::Video(id) => SomeChunkId::Video(id.clone()),
            SomeChunkId::Audio(id) => SomeChunkId::Audio(id.clone()),
        }
    }
}

impl View for SomeChunkId {
    type V = (ChunkKind, u64);

    open spec fn view(&self) -> (ChunkKind, u64) {
        match self {
            SomeChunkId::Video(id) => (ChunkKind::Video, id.spec_key()),
            SomeChunkId::Audio(id) => (ChunkKind::Audio, id.spec_key()),
        }
    }
}

/// The notification that a write into the collection of `kind` yields:
/// `committed` is the key the store assigned where the write committed, and
/// `None` where it failed.
pub open spec fn notification(kind: ChunkKind, committed: Option<u64>) -> Option<(ChunkKind, u64)> {
    match committed {
        Some(key) => Some((kind, key)),
        None => None,
    }
}

/// The notifications that a run of writes into the collection of `kind`
/// yields, one outcome per write, in the order the writes finished.
pub open spec fn emitted(kind: ChunkKind, outcomes: Seq<Option<u64>>) -> Seq<(ChunkKind, u64)>
    decreases outcomes.len(),
{
    if outcomes.len() == 0 {
        Seq::empty()
    } else {
        let rest = emitted(kind, outcomes.drop_last());
        match notification(kind, outcomes.last()) {
            Some(n) => rest.push(n),
            None => rest,
        }
    }
}

impl SomeChunkId {
    /// The collection this identifier belongs to.
    pub fn kind(&self) -> (r: ChunkKind)
        ensures
            r == self@.0,
    {
        match self {
            SomeChunkId::Video(_) => ChunkKind::Video,
            SomeChunkId::Audio(_) => ChunkKind::Audio,
        }
    }

    /// The key the store assigned.
    pub fn key(&self) -> (r: u64)
        ensures
            r == self@.1,
    {
        match self {
            SomeChunkId::Video(id) => id.key(),
            SomeChunkId::Audio(id) => id.key(),
        }
    }

    /// Decides what a finished write into the collection of `kind` sends on
    /// the notification channel: the identifier of the new record, tagged
    /// with its collection, where the write committed under key `committed`;
    /// nothing where it failed.
    pub fn for_write(kind: ChunkKind, committed: Option<u64>) -> (r: Option<SomeChunkId>)
        ensures
            r.is_none() <==> committed.is_none(),
            r matches Some(n) ==> notification(kind, committed) == Some(n@),
    {
        match committed {
            Some(key) => match kind {
                ChunkKind::Video => Some(SomeChunkId::Video(ChunkId::new(key))),
                ChunkKind::Audio => Some(SomeChunkId::Audio(ChunkId::new(key))),
            },
            None => None,
        }
    }
}

/// Where every one of a run of writes into one collection commits, each
/// yields exactly one notification: the i-th carries the key of the i-th
/// commit, tagged with that collection. Keys that the store assigned pairwise
/// distinct (strictly increasing) arrive pairwise distinct (strictly
/// increasing).
pub proof fn lemma_every_commit_notified(kind: ChunkKind, outcomes: Seq<Option<u64>>)
    requires
        forall|i: int| 0 <= i < outcomes.len() ==> (#[trigger] outcomes[i]).is_some(),
    ensures
        emitted(kind, outcomes).len() == outcomes.len(),
        forall|i: int|
            0 <= i < outcomes.len() ==> #[trigger] emitted(kind, outcomes)[i] == (
                kind,
                outcomes[i].unwrap(),
            ),
        (forall|i: int, j: int|
            0 <= i < j < outcomes.len() ==> outcomes[i].unwrap() != outcomes[j].unwrap()) ==> (
        forall|i: int, j: int|
            0 <= i < j < outcomes.len() ==> emitted(kind, outcomes)[i].1 != emitted(
                kind,
                outcomes,
            )[j].1),
        (forall|i: int, j: int|
            0 <= i < j < outcomes.len() ==> outcomes[i].unwrap() < outcomes[j].unwrap()) ==> (
        forall|i: int, j: int|
            0 <= i < j < outcomes.len() ==> emitted(kind, outcomes)[i].1 < emitted(
                kind,
                outcomes,
            )[j].1),
    decreases outcomes.len(),
{
    if outcomes.len() > 0 {
        let prefix = outcomes.drop_last();
        assert forall|i: int| 0 <= i < prefix.len() implies (#[trigger] prefix[i]).is_some() by {
            assert(prefix[i] == outcomes[i]);
        }
        lemma_every_commit_notified(kind, prefix);
        assert(outcomes.last().is_some());
    }
}

/// A write that fails adds no notification to those of the writes before it.
pub proof fn lemma_failed_write_silent(kind: ChunkKind, outcomes: Seq<Option<u64>>)
    ensures
        emitted(kind, outcomes.push(None)) == emitted(kind, outcomes),
{
    assert(outcomes.push(None).drop_last() =~= outcomes);
}

} // verus!
