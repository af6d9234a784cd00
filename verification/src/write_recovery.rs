//! Paging of the write-recovery listing.
use vstd::prelude::*;

verus! {

/// Records listed when the request names no limit.
pub const DEFAULT_RECOVERY_LIMIT: i64 = 50;

/// Most records listed at once.
pub const MAX_RECOVERY_LIMIT: i64 = 200;

/// The number of records to list: the requested limit, or 50 when none is
/// given, kept within 1 to 200.
pub fn recovery_limit(limit: Option<i64>) -> (r: i64)
    ensures
        ({
            let wanted = match limit {
                Some(l) => l,
                None => DEFAULT_RECOVERY_LIMIT,
            };
            r == if wanted < 1 {
                1
            } else if wanted > MAX_RECOVERY_LIMIT {
                MAX_RECOVERY_LIMIT
            } else {
                wanted
            }
        }),
{
    let wanted = match limit {
        Some(l) => l,
        None => DEFAULT_RECOVERY_LIMIT,
    };
    if wanted < 1 {
        1
    } else if wanted > MAX_RECOVERY_LIMIT {
        MAX_RECOVERY_LIMIT
    } else {
        wanted
    }
}

} // verus!
