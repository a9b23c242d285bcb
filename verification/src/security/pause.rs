//! Protocol-level pause gate.
use vstd::prelude::*;

use crate::error::IronVaultError;
use crate::state::ProtocolConfig;

verus! {

/// Refuses the operation guarded by `flag` while any of its bits is set.
pub fn require_protocol_active(config: &ProtocolConfig, flag: u32) -> (r: Result<
    (),
    IronVaultError,
>)
    ensures
        r == if config.spec_is_paused(flag) {
            Err(IronVaultError::ProtocolPaused)
        } else {
            Ok(())
        },
{
    if config.is_paused(flag) {
        return Err(IronVaultError::ProtocolPaused);
    }
    Ok(())
}

} // verus!
