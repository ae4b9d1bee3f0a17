//! Decoding support for a framed publish/subscribe wire protocol: a bounded,
//! lazy collector for display summaries, tag summaries for decoded transport
//! and network messages, and a batch reader with a compression fallback.

pub mod batch;
pub mod message;
pub mod summary;
pub mod text;
