use videocall_recorder::chunk::{copy_payload, ChunkKind, EncodedChunk, FrameType};
use videocall_recorder::notify::{AudioChunkId, ChunkId, SomeChunkId, VideoChunkId};

#[test]
fn kind_names() {
    assert_eq!(ChunkKind::Video.name(), "video");
    assert_eq!(ChunkKind::Audio.name(), "audio");
    assert_eq!(ChunkKind::from_name("video"), Some(ChunkKind::Video));
    assert_eq!(ChunkKind::from_name("audio"), Some(ChunkKind::Audio));
    assert_eq!(ChunkKind::from_name("Video"), None);
    assert_eq!(ChunkKind::from_name(""), None);
}

#[test]
fn frame_type_names() {
    assert_eq!(FrameType::Key.name(), "key");
    assert_eq!(FrameType::Delta.name(), "delta");
    assert_eq!(FrameType::from_name("key"), Some(FrameType::Key));
    assert_eq!(FrameType::from_name("delta"), Some(FrameType::Delta));
    assert_eq!(FrameType::from_name("keyframe"), None);
    assert_eq!(FrameType::from_name(""), None);
}

#[test]
fn copy_payload_is_an_owned_copy() {
    let mut src = vec![9u8, 8, 7, 6];
    let copy = copy_payload(&src);
    src[0] = 0;
    assert_eq!(copy, vec![9u8, 8, 7, 6]);
    assert_eq!(copy_payload(&[]), Vec::<u8>::new());
}

#[test]
fn normalize_without_duration_gives_none() {
    let r = EncodedChunk::normalize(ChunkKind::Video, FrameType::Key, 0f64.to_bits(), None, &[1, 2]);
    assert!(r.is_none());
}

#[test]
fn normalize_keeps_every_field() {
    let c = EncodedChunk::normalize(
        ChunkKind::Video,
        FrameType::Delta,
        33.5f64.to_bits(),
        Some(16.25f64.to_bits()),
        &[5, 4, 3],
    )
    .unwrap();
    assert_eq!(c.kind(), ChunkKind::Video);
    assert_eq!(c.frame_type(), FrameType::Delta);
    assert_eq!(f64::from_bits(c.timestamp()), 33.5);
    assert_eq!(f64::from_bits(c.duration()), 16.25);
    assert_eq!(c.data(), &vec![5u8, 4, 3]);
}

#[test]
fn persisted_record_reads_back_equal() {
    let payload: Vec<u8> = (0..=255u8).collect();
    let c = EncodedChunk::new(ChunkKind::Audio, FrameType::Delta, 1234.0f64.to_bits(), 20.0f64.to_bits(), &payload);
    let back = c.as_record().read_back().unwrap();
    assert_eq!(back.kind(), ChunkKind::Audio);
    assert_eq!(back.frame_type(), FrameType::Delta);
    assert_eq!(back.timestamp(), 1234.0f64.to_bits());
    assert_eq!(back.duration(), 20.0f64.to_bits());
    assert_eq!(back.data(), &payload);
}

#[test]
fn record_with_unknown_names_reads_back_none() {
    let mut r = EncodedChunk::new(ChunkKind::Video, FrameType::Key, 0, 0, &[1]).as_record();
    r.kind = "subtitle".to_string();
    assert!(r.read_back().is_none());
    let mut r = EncodedChunk::new(ChunkKind::Video, FrameType::Key, 0, 0, &[1]).as_record();
    r.frame_type = "intra".to_string();
    assert!(r.read_back().is_none());
}

#[test]
fn audio_chunk_end_to_end_record_and_notification() {
    let c = EncodedChunk::normalize(
        ChunkKind::Audio,
        FrameType::Key,
        0.0f64.to_bits(),
        Some(20.0f64.to_bits()),
        &[1, 2, 3],
    )
    .unwrap();
    let r = c.as_record();
    assert_eq!(r.kind, "audio");
    assert_eq!(r.frame_type, "key");
    assert_eq!(f64::from_bits(r.timestamp), 0.0);
    assert_eq!(f64::from_bits(r.duration), 20.0);
    assert_eq!(r.data, vec![1u8, 2, 3]);
    let n = SomeChunkId::for_write(c.kind(), Some(1)).unwrap();
    assert!(matches!(n, SomeChunkId::Audio(_)));
    assert_eq!(n.kind(), ChunkKind::Audio);
    assert_eq!(n.key(), 1);
}

#[test]
fn video_key_then_delta_get_keys_one_then_two() {
    let key = EncodedChunk::new(ChunkKind::Video, FrameType::Key, 0, 0, &[1]);
    let delta = EncodedChunk::new(ChunkKind::Video, FrameType::Delta, 0, 0, &[2]);
    assert_eq!(key.as_record().frame_type, "key");
    assert_eq!(delta.as_record().frame_type, "delta");
    let first = SomeChunkId::for_write(key.kind(), Some(1)).unwrap();
    let second = SomeChunkId::for_write(delta.kind(), Some(2)).unwrap();
    assert!(matches!(first, SomeChunkId::Video(_)));
    assert!(matches!(second, SomeChunkId::Video(_)));
    assert_eq!(first.key(), 1);
    assert_eq!(second.key(), 2);
}

#[test]
fn failed_write_sends_nothing() {
    assert!(SomeChunkId::for_write(ChunkKind::Video, None).is_none());
    assert!(SomeChunkId::for_write(ChunkKind::Audio, None).is_none());
}

#[test]
fn every_commit_yields_one_distinct_video_id() {
    let keys: Vec<u64> = vec![3, 1, 2, 7];
    let sent: Vec<SomeChunkId> = keys
        .iter()
        .filter_map(|k| SomeChunkId::for_write(ChunkKind::Video, Some(*k)))
        .collect();
    assert_eq!(sent.len(), keys.len());
    for (n, k) in sent.iter().zip(keys.iter()) {
        assert!(matches!(n, SomeChunkId::Video(_)));
        assert_eq!(n.key(), *k);
    }
    let mut seen: Vec<u64> = sent.iter().map(|n| n.key()).collect();
    seen.sort();
    seen.dedup();
    assert_eq!(seen.len(), keys.len());
}

#[test]
fn chunk_ids_keep_their_key() {
    let v: VideoChunkId = ChunkId::new(42);
    let a: AudioChunkId = ChunkId::new(u64::MAX);
    assert_eq!(v.clone().key(), 42);
    assert_eq!(a.key(), u64::MAX);
    assert_eq!(SomeChunkId::Video(v).key(), 42);
    assert_eq!(SomeChunkId::Audio(a).kind(), ChunkKind::Audio);
}
