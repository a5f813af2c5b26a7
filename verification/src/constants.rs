use vstd::prelude::*;

verus! {

/// Rates are expressed in permyriad: parts per 10,000.
pub const PERMYRIAD: u64 = 10_000;

/// Creator royalty shares are expressed in percent: parts per 100.
pub const SHARE_DENOMINATOR: u64 = 100;

/// The treasury table holds at most this many recipients.
pub const MAX_TEAM_COUNT: u64 = 8;

/// The largest gross amount a settlement can split without the permyriad
/// products overflowing a `u64`; equal to `u64::MAX / PERMYRIAD`.
pub const MAX_GROSS: u64 = 1_844_674_407_370_955;

} // verus!
