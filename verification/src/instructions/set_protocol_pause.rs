//! `set_protocol_pause`: replaces the protocol pause mask.
use vstd::prelude::*;

use crate::constants::{INITIAL_SCHEMA_VERSION, KNOWN_PAUSE_FLAGS};
use crate::error::{IronVaultError, ProgramFailure};
use crate::events::ProtocolPauseUpdated;
use crate::instructions::fail;
use crate::pubkey::{keys_equal, Pubkey};
use crate::state::ProtocolConfig;

verus! {

/// Accounts of `set_protocol_pause`.
#[derive(Clone, Copy, Debug)]
pub struct SetProtocolPause {
    pub caller: Pubkey,
    /// Address of the protocol configuration.
    pub protocol_config: Pubkey,
}

/// Why a pause-mask change is refused: an unknown bit, a caller that is
/// neither admin nor guardian, or a guardian clearing a set bit.
pub open spec fn set_pause_failure(caller: Pubkey, config: ProtocolConfig, flags: u32) -> Option<
    ProgramFailure,
> {
    if flags & !KNOWN_PAUSE_FLAGS != 0 {
        fail(IronVaultError::InvalidPauseFlags)
    } else if caller != config.admin && caller != config.guardian {
        fail(IronVaultError::UnauthorizedProtocolPause)
    } else if caller == config.guardian && flags & config.pause_flags != config.pause_flags {
        fail(IronVaultError::GuardianCannotUnpause)
    } else {
        None
    }
}

/// Replaces the pause mask: the admin may set or clear any known bit, the
/// guardian may only add bits.
pub fn set_pause(ctx: &SetProtocolPause, config: &mut ProtocolConfig, flags: u32) -> (r: Result<
    ProtocolPauseUpdated,
    ProgramFailure,
>)
    ensures
        r matches Err(f) ==> set_pause_failure(ctx.caller, *old(config), flags) == Some(f)
            && *final(config) == *old(config),
        r matches Ok(event) ==> {
            &&& set_pause_failure(ctx.caller, *old(config), flags) is None
            &&& *final(config) == ProtocolConfig { pause_flags: flags, ..*old(config) }
            &&& event == ProtocolPauseUpdated {
                version: INITIAL_SCHEMA_VERSION,
                protocol_config: ctx.protocol_config,
                caller: ctx.caller,
                previous_flags: old(config).pause_flags,
                new_flags: flags,
            }
        },
{
    if flags & !KNOWN_PAUSE_FLAGS != 0 {
        return Err(ProgramFailure::Vault(IronVaultError::InvalidPauseFlags));
    }
    let caller = ctx.caller;
    let is_admin = keys_equal(&caller, &config.admin);
    let is_guardian = keys_equal(&caller, &config.guardian);
    if !is_admin && !is_guardian {
        return Err(ProgramFailure::Vault(IronVaultError::UnauthorizedProtocolPause));
    }
    if is_guardian && flags & config.pause_flags != config.pause_flags {
        return Err(ProgramFailure::Vault(IronVaultError::GuardianCannotUnpause));
    }
    let previous_flags = config.pause_flags;
    config.pause_flags = flags;
    Ok(
        ProtocolPauseUpdated {
            version: INITIAL_SCHEMA_VERSION,
            protocol_config: ctx.protocol_config,
            caller,
            previous_flags,
            new_flags: flags,
        },
    )
}

/// Law: the protocol guardian can add pause bits but never clear one, and no
/// successful change sets a bit outside the known pause flags.
pub proof fn lemma_guardian_only_adds_pause_flags(
    caller: Pubkey,
    config: ProtocolConfig,
    flags: u32,
    flag: u32,
)
    requires
        set_pause_failure(caller, config, flags) is None,
    ensures
        flags & !KNOWN_PAUSE_FLAGS == 0,
        caller == config.admin || caller == config.guardian,
        caller == config.guardian && config.spec_is_paused(flag) ==> (ProtocolConfig {
            pause_flags: flags,
            ..config
        }).spec_is_paused(flag),
{
    let old_flags = config.pause_flags;
    assert(flags & old_flags == old_flags && old_flags & flag != 0 ==> flags & flag != 0)
        by (bit_vector);
}

} // verus!
