use vstd::prelude::*;

verus! {

/// How long before its expiry a session is already renewed, in seconds.
pub const REFRESH_MARGIN_SECS: i64 = 300;

/// Whether a session that expires at `expiry_secs` should be renewed at
/// `now_secs` (both in seconds since the Unix epoch): whether less than the
/// refresh margin is left.
pub fn is_almost_expired(now_secs: i64, expiry_secs: i64) -> (r: bool)
    ensures
        r == (now_secs as int > expiry_secs as int - REFRESH_MARGIN_SECS as int),
{
    match expiry_secs.checked_sub(REFRESH_MARGIN_SECS) {
        Some(limit) => now_secs > limit,
        None => true,
    }
}

} // verus!
