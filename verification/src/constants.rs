//! Size limits and record layout constants.

use vstd::prelude::*;

verus! {

/// Maximum length of a process name, in bytes.
pub const MAX_PROCESS_NAME_LENGTH: usize = 32;

/// Number of process names carried by one daily usage record.
pub const PROCESS_ARRAY_SIZE: usize = 5;

/// Maximum length of a device name, in bytes.
pub const MAX_DEVICE_NAME_LENGTH: usize = 64;

/// At-rest size of a device record: 8-byte tag, 32-byte owner, 32-byte
/// fingerprint, 8-byte timestamp, 1-byte flag.
pub const DEVICE_ACCOUNT_SIZE: usize = 8 + 32 + 32 + 8 + 1;

/// At-rest size of a daily usage record: 8-byte tag, 32-byte device address,
/// 8-byte timestamp, two 4-byte metrics, the 5 x 32 process-name block,
/// 32-byte data hash, 8-byte creation timestamp.
pub const DAILY_USAGE_ACCOUNT_SIZE: usize = 8 + 32 + 8 + 4 + 4 + 32 * 5 + 32 + 8;

} // verus!
