//! A fixed-length byte store with stream-style cursor access, a shared
//! handle that serialises every access behind one lock, and the case-toggling
//! unit of work that runs against it.

pub mod storage;
pub mod shared;
pub mod toggle;
