//! The checks that decide whether an operation may be queued at all. Each is
//! made before a request is built, and a refusal leaves nothing behind.

use vstd::prelude::*;
use crate::state::{ErrorCode, IdentityKey, PositionAccount};

verus! {

/// A computation can be queued only where a cluster is set to run it.
pub fn require_cluster(cluster: Option<u32>) -> (checked: Result<u32, ErrorCode>)
    ensures
        cluster is Some ==> checked == Ok::<u32, ErrorCode>(cluster->Some_0),
        cluster is None ==> checked == Err::<u32, ErrorCode>(ErrorCode::ClusterUnavailable),
{
    match cluster {
        Some(offset) => Ok(offset),
        None => Err(ErrorCode::ClusterUnavailable),
    }
}

/// A health check is for a position that is monitored.
pub fn require_active(record: &PositionAccount) -> (checked: Result<(), ErrorCode>)
    ensures
        record.is_active ==> checked == Ok::<(), ErrorCode>(()),
        !record.is_active ==> checked == Err::<(), ErrorCode>(ErrorCode::PositionInactive),
{
    if record.is_active {
        Ok(())
    } else {
        Err(ErrorCode::PositionInactive)
    }
}

/// A disclosure is for the owner of the position and for nobody else.
pub fn require_owner(record: &PositionAccount, caller: &IdentityKey) -> (checked: Result<
    (),
    ErrorCode,
>)
    ensures
        *caller == record.owner ==> checked == Ok::<(), ErrorCode>(()),
        *caller != record.owner ==> checked == Err::<(), ErrorCode>(ErrorCode::InvalidAuthority),
{
    if caller.same(&record.owner) {
        Ok(())
    } else {
        Err(ErrorCode::InvalidAuthority)
    }
}

} // verus!
