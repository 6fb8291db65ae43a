//! Tuning values with their documented defaults. Each is overridable at
//! construction time by the component that uses it.

use vstd::prelude::*;

verus! {

/// Default size of one upload chunk, in bytes.
pub const CHUNK_UPLOAD_BUFFER: usize = 40960;

/// Default bound on transient retries of a single chunk write; exceeding it
/// aborts the whole upload phase for the target.
pub const CHUNK_UPLOAD_RETRIES: u32 = 5;

/// Default bound on how many file paths go into one remote checksum command,
/// to keep the remote command line short.
pub const CMD_FILES_LIMIT: usize = 512;

} // verus!
