//! A stream-synchronization and dispatch engine for pipeline stages that
//! consume several independently arriving input streams and produce several
//! output streams, where every output cycle takes exactly one unit from each
//! input stream.

pub mod caps;
pub mod cata;
pub mod identity;
pub mod lifecycle;
pub mod protocol;
pub mod registry;
pub mod zipper;
