use vstd::prelude::*;

verus! {

/// Which collection of the store a chunk belongs to.
#[derive(Clone, Copy, Debug, PartialEq, Eq, Structural, PartialOrd, Ord)]
pub enum ChunkKind {
    Video,
    Audio,
}

/// The type of an encoded frame: a keyframe or a delta against earlier frames.
#[derive(Clone, Copy, Debug, PartialEq, Eq, Structural, PartialOrd, Ord)]
pub enum FrameType {
    Key,
    Delta,
}

/// The name under which a kind is written: also the name of its collection.
pub open spec fn kind_name(k: ChunkKind) -> Seq<char> {
    match k {
        ChunkKind::Video => "video"@,
        ChunkKind::Audio => "audio"@,
    }
}

/// The name under which a frame type is written.
pub open spec fn frame_type_name(t: FrameType) -> Seq<char> {
    match t {
        FrameType::Key => "key"@,
        FrameType::Delta => "delta"@,
    }
}

/// The kind whose name is `s`, if any.
pub open spec fn kind_of_name(s: Seq<char>) -> Option<ChunkKind> {
    if s == "video"@ {
        Some(ChunkKind::Video)
    } else if s == "audio"@ {
        Some(ChunkKind::Audio)
    } else {
        None
    }
}

/// The frame type whose name is `s`, if any.
pub open spec fn frame_type_of_name(s: Seq<char>) -> Option<FrameType> {
    if s == "key"@ {
        Some(FrameType::Key)
    } else if s == "delta"@ {
        Some(FrameType::Delta)
    } else {
        None
    }
}

/// Whether two strings hold the same characters.
fn same_text(a: &str, b: &str) -> (r: bool)
    ensures
        r == (a@ == b@),
{
    let x: String = a.to_owned();
    let y: String = b.to_owned();
    x == y
}

impl ChunkKind {
    /// The name of this kind, as stored in a record's `kind` field.
    pub fn name(self) -> (r: &'static str)
        ensures
            r@ == kind_name(self),
    {
        match self {
            ChunkKind::Video => "video",
            ChunkKind::Audio => "audio",
        }
    }

    /// The kind named `s`, or `None` where `s` names no kind.
    pub fn from_name(s: &str) -> (r: Option<ChunkKind>)
        ensures
            r == kind_of_name(s@),
    {
        proof {
            reveal_strlit("video");
            reveal_strlit("audio");
        }
        if same_text(s, "video") {
            Some(ChunkKind::Video)
        } else if same_text(s, "audio") {
            Some(ChunkKind::Audio)
        } else {
            None
        }
    }
}

impl FrameType {
    /// The name of this frame type, as stored in a record's `type` field.
    pub fn name(self) -> (r: &'static str)
        ensures
            r@ == frame_type_name(self),
    {
        match self {
            FrameType::Key => "key",
            FrameType::Delta => "delta",
        }
    }

    /// The frame type named `s` (the platform's own tags are `"key"` and
    /// `"delta"`), or `None` where `s` names none.
    pub fn from_name(s: &str) -> (r: Option<FrameType>)
        ensures
            r == frame_type_of_name(s@),
    {
        proof {
            reveal_strlit("key");
            reveal_strlit("delta");
        }
        if same_text(s, "key") {
            Some(FrameType::Key)
        } else if same_text(s, "delta") {
            Some(FrameType::Delta)
        } else {
            None
        }
    }
}

/// Reading back the name of a kind gives the kind: no two kinds share a name.
pub proof fn lemma_kind_name_round_trip(k: ChunkKind)
    ensures
        kind_of_name(kind_name(k)) == Some(k),
{
    reveal_strlit("video");
    reveal_strlit("audio");
    if k == ChunkKind::Audio {
        assert("audio"@[0] != "video"@[0]);
    }
}

/// Reading back the name of a frame type gives the frame type.
pub proof fn lemma_frame_type_name_round_trip(t: FrameType)
    ensures
        frame_type_of_name(frame_type_name(t)) == Some(t),
{
    reveal_strlit("key");
    reveal_strlit("delta");
    if t == FrameType::Delta {
        assert("delta"@.len() != "key"@.len());
    }
}

/// An encoded video or audio chunk, owned and self-contained.
///
/// The timestamp and the duration are milliseconds as IEEE-754 doubles; the
/// library carries their bit patterns and never computes with them.
pub struct EncodedChunk {
    kind: ChunkKind,
    frame_type: FrameType,
    timestamp: u64,
    duration: u64,
    data: Vec<u8>,
}

/// What an `EncodedChunk` holds.
pub struct ChunkView {
    pub kind: ChunkKind,
    pub frame_type: FrameType,
    pub timestamp: u64,
    pub duration: u64,
    pub data: Seq<u8>,
}

impl View for EncodedChunk {
    type V = ChunkView;

    closed spec fn view(&self) -> ChunkView {
        ChunkView {
            kind: self.kind,
            frame_type: self.frame_type,
            timestamp: self.timestamp,
            duration: self.duration,
            data: self.data@,
        }
    }
}

/// The chunk that normalizing these parts gives.
pub open spec fn chunk_of_parts(
    kind: ChunkKind,
    frame_type: FrameType,
    timestamp: u64,
    duration: u64,
    payload: Seq<u8>,
) -> ChunkView {
    ChunkView { kind, frame_type, timestamp, duration, data: payload }
}

/// A fresh buffer of `src.len()` bytes holding a copy of `src`.
pub fn copy_payload(src: &[u8]) -> (r: Vec<u8>)
    ensures
        r@ == src@,
{
    let n: usize = src.len();
    let mut r: Vec<u8> = Vec::with_capacity(n);
    let mut i: usize = 0;
    while i < n
        invariant
            n == src@.len(),
            i <= n,
            r@ == src@.subrange(0, i as int),
        decreases n - i,
    {
        r.push(src[i]);
        i = i + 1;
        assert(r@ =~= src@.subrange(0, i as int));
    }
    assert(r@ =~= src@);
    r
}

impl EncodedChunk {
    /// Normalizes a chunk whose duration is known: the payload is copied into
    /// a buffer of the chunk's own.
    pub fn new(
        kind: ChunkKind,
        frame_type: FrameType,
        timestamp: u64,
        duration: u64,
        payload: &[u8],
    ) -> (r: EncodedChunk)
        ensures
            r@ == chunk_of_parts(kind, frame_type, timestamp, duration, payload@),
    {
        let data = copy_payload(payload);
        EncodedChunk { kind, frame_type, timestamp, duration, data }
    }

    /// Normalizes a chunk as the producer hands it over. A chunk without a
    /// duration is a fault of the producer: it yields `None`, never a chunk
    /// with a made-up duration.
    pub fn normalize(
        kind: ChunkKind,
        frame_type: FrameType,
        timestamp: u64,
        duration: Option<u64>,
        payload: &[u8],
    ) -> (r: Option<EncodedChunk>)
        ensures
            r.is_none() <==> duration.is_none(),
            r matches Some(c) ==> c@ == chunk_of_parts(
                kind,
                frame_type,
                timestamp,
                duration.unwrap(),
                payload@,
            ),
    {
        match duration {
            Some(d) => Some(EncodedChunk::new(kind, frame_type, timestamp, d, payload)),
            None => None,
        }
    }

    pub fn kind(&self) -> (r: ChunkKind)
        ensures
            r == self@.kind,
    {
        self.kind
    }

    pub fn frame_type(&self) -> (r: FrameType)
        ensures
            r == self@.frame_type,
    {
        self.frame_type
    }

    /// The bit pattern of the timestamp in milliseconds.
    pub fn timestamp(&self) -> (r: u64)
        ensures
            r == self@.timestamp,
    {
        self.timestamp
    }

    /// The bit pattern of the duration in milliseconds.
    pub fn duration(&self) -> (r: u64)
        ensures
            r == self@.duration,
    {
        self.duration
    }

    pub fn data(&self) -> (r: &Vec<u8>)
        ensures
            r@ == self@.data,
    {
        &self.data
    }
}

} // verus!
