//! Session-gated resolution of a streaming catalog: thumbnails, season and
//! episode listings, next-episode suggestions, caption tracks and playback
//! URLs, all computed from plain values with verified contracts.

pub mod captions;
pub mod catalog;
pub mod codec;
pub mod episode;
pub mod error;
pub mod images;
pub mod pipeline;
pub mod session;
pub mod streams;
