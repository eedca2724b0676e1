//! Scrobble-count engine for a chat bot that answers "how many scrobbles do
//! I have" against one of several music-tracking backends.
//!
//! The library holds the verified core: credential resolution with a fixed
//! source priority, relay session matching, time-range strategy selection,
//! artist-filtered counting, and the bookkeeping of a cancellable paginated
//! fetch. Network transport, storage and the chat frontend live outside the
//! library and hand it plain values.

pub mod commands;
pub mod counter;
pub mod creds;
pub mod fetch;
pub mod grid;
pub mod range;
pub mod records;
pub mod relay;
pub mod resolve;
pub mod setups;
pub mod text;
pub mod url_parts;
