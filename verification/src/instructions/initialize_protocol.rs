//! `initialize_protocol`: creates the singleton protocol configuration.
use vstd::prelude::*;

use crate::constants::INITIAL_SCHEMA_VERSION;
use crate::error::{IronVaultError, ProgramFailure};
use crate::events::ProtocolInitialized;
use crate::pubkey::{keys_equal, Pubkey};
use crate::state::ProtocolConfig;

verus! {

/// Accounts of `initialize_protocol`.
#[derive(Clone, Copy, Debug)]
pub struct InitializeProtocol {
    pub initializer: Pubkey,
    /// Address of the protocol configuration being created.
    pub protocol_config: Pubkey,
    /// Bump of the protocol configuration address.
    pub protocol_config_bump: u8,
}

/// A newly initialized protocol configuration and its event.
#[derive(Clone, Copy, Debug)]
pub struct ProtocolInitialization {
    pub config: ProtocolConfig,
    pub event: ProtocolInitialized,
}

/// Admin and guardian must both be set and distinct.
pub open spec fn valid_protocol_authorities(admin: Pubkey, guardian: Pubkey) -> bool {
    !admin.spec_is_default() && !guardian.spec_is_default() && admin != guardian
}

/// The configuration and event of a successful initialization.
pub open spec fn spec_initialization(
    ctx: InitializeProtocol,
    admin: Pubkey,
    guardian: Pubkey,
) -> ProtocolInitialization {
    ProtocolInitialization {
        config: ProtocolConfig {
            version: INITIAL_SCHEMA_VERSION,
            admin,
            guardian,
            pause_flags: 0,
            bump: ctx.protocol_config_bump,
        },
        event: ProtocolInitialized {
            version: INITIAL_SCHEMA_VERSION,
            protocol_config: ctx.protocol_config,
            admin,
            guardian,
        },
    }
}

/// Initializes the protocol administration with no pause flags set; refuses a
/// default or repeated admin or guardian key.
pub fn initialize_protocol_account(
    ctx: &InitializeProtocol,
    admin: Pubkey,
    guardian: Pubkey,
) -> (r: Result<ProtocolInitialization, ProgramFailure>)
    ensures
        r is Ok == valid_protocol_authorities(admin, guardian),
        r matches Ok(init) ==> init == spec_initialization(*ctx, admin, guardian),
        r matches Err(f) ==> f == ProgramFailure::Vault(IronVaultError::InvalidProtocolAuthority),
{
    if admin.is_default() || guardian.is_default() || keys_equal(&admin, &guardian) {
        return Err(ProgramFailure::Vault(IronVaultError::InvalidProtocolAuthority));
    }
    Ok(
        ProtocolInitialization {
            config: ProtocolConfig {
                version: INITIAL_SCHEMA_VERSION,
                admin,
                guardian,
                pause_flags: 0,
                bump: ctx.protocol_config_bump,
            },
            event: ProtocolInitialized {
                version: INITIAL_SCHEMA_VERSION,
                protocol_config: ctx.protocol_config,
                admin,
                guardian,
            },
        },
    )
}

} // verus!
