use vstd::prelude::*;

use crate::chunk::{
    chunk_of_parts, frame_type_name, frame_type_of_name, kind_name, kind_of_name,
    lemma_frame_type_name_round_trip, lemma_kind_name_round_trip, ChunkKind, ChunkView,
    EncodedChunk, FrameType,
};

verus! {

/// The schema version under which the store is created: one collection per
/// chunk kind, named after the kind, with keys that the store assigns in
/// increasing order.
pub const STORE_VERSION: u32 = 1;

/// The structured record that a collection of the store keeps for one chunk:
/// the fields `kind`, `type`, `timestamp`, `duration` and `data`.
pub struct ChunkRecord {
    /// `"video"` or `"audio"`.
    pub kind: String,
    /// `"key"` or `"delta"`.
    pub frame_type: String,
    /// Bit pattern of the timestamp in milliseconds.
    pub timestamp: u64,
    /// Bit pattern of the duration in milliseconds.
    pub duration: u64,
    /// The payload bytes.
    pub data: Vec<u8>,
}

/// What a `ChunkRecord` holds.
pub struct RecordView {
    pub kind: Seq<char>,
    pub frame_type: Seq<char>,
    pub timestamp: u64,
    pub duration: u64,
    pub data: Seq<u8>,
}

impl View for ChunkRecord {
    type V = RecordView;

    open spec fn view(&self) -> RecordView {
        RecordView {
            kind: self.kind@,
            frame_type: self.frame_type@,
            timestamp: self.timestamp,
            duration: self.duration,
            data: self.data@,
        }
    }
}

/// The record under which a chunk is persisted.
pub open spec fn record_of(c: ChunkView) -> RecordView {
    RecordView {
        kind: kind_name(c.kind),
        frame_type: frame_type_name(c.frame_type),
        timestamp: c.timestamp,
        duration: c.duration,
        data: c.data,
    }
}

/// The chunk that a persisted record describes, or `None` where its `kind`
/// or `type` field names nothing known.
pub open spec fn chunk_of_record(r: RecordView) -> Option<ChunkView> {
    match (kind_of_name(r.kind), frame_type_of_name(r.frame_type)) {
        (Some(kind), Some(frame_type)) => Some(
            ChunkView {
                kind,
                frame_type,
                timestamp: r.timestamp,
                duration: r.duration,
                data: r.data,
            },
        ),
        _ => None,
    }
}

impl EncodedChunk {
    /// The record under which this chunk is persisted.
    pub fn as_record(&self) -> (r: ChunkRecord)
        ensures
            r@ == record_of(self@),
    {
        let data = crate::chunk::copy_payload(self.data().as_slice());
        ChunkRecord {
            kind: self.kind().name().to_owned(),
            frame_type: self.frame_type().name().to_owned(),
            timestamp: self.timestamp(),
            duration: self.duration(),
            data,
        }
    }
}

impl ChunkRecord {
    /// Reads a persisted record back into a chunk; `None` where the record's
    /// `kind` or `type` field names nothing known.
    pub fn read_back(&self) -> (r: Option<EncodedChunk>)
        ensures
            r matches Some(c) ==> chunk_of_record(self@) == Some(c@),
            r.is_none() <==> chunk_of_record(self@).is_none(),
    {
        let kind = ChunkKind::from_name(self.kind.as_str());
        let frame_type = FrameType::from_name(self.frame_type.as_str());
        match (kind, frame_type) {
            (Some(k), Some(t)) => Some(
                EncodedChunk::new(k, t, self.timestamp, self.duration, self.data.as_slice()),
            ),
            _ => None,
        }
    }
}

/// Normalizing a chunk, persisting it and reading the record back gives the
/// same payload byte for byte and the same kind, type, timestamp and duration.
pub proof fn lemma_persisted_round_trip(
    kind: ChunkKind,
    frame_type: FrameType,
    timestamp: u64,
    duration: u64,
    payload: Seq<u8>,
)
    ensures
        chunk_of_record(record_of(chunk_of_parts(kind, frame_type, timestamp, duration, payload)))
            == Some(chunk_of_parts(kind, frame_type, timestamp, duration, payload)),
{
    lemma_kind_name_round_trip(kind);
    lemma_frame_type_name_round_trip(frame_type);
}

} // verus!
