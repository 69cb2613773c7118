//! A durable chunk-recording pipeline for encoded audio and video.
//!
//! The library normalizes encoded media chunks into owned values, lays them
//! out as the records that the store keeps, and decides which completion
//! notification each write yields.
pub mod chunk;
pub mod notify;
pub mod record;
