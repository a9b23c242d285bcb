use anchor_lang::solana_program::program_option::COption;
use anchor_lang::solana_program::program_pack::Pack;
use anchor_spl::token_interface::spl_token_2022::extension::non_transferable::NonTransferable;
use anchor_spl::token_interface::spl_token_2022::extension::permanent_delegate::PermanentDelegate;
use anchor_spl::token_interface::spl_token_2022::extension::transfer_fee::TransferFeeConfig;
use anchor_spl::token_interface::spl_token_2022::extension::transfer_hook::TransferHook;
use anchor_spl::token_interface::spl_token_2022::extension::{
    BaseStateWithExtensionsMut, ExtensionType, StateWithExtensionsMut,
};
use anchor_spl::token_interface::spl_token_2022::state::Mint;
use iron_vault::error::{IronVaultError, ProgramFailure};
use iron_vault::instructions::create_escrow::{create, CreateEscrow};
use iron_vault::pubkey::Pubkey;
use iron_vault::security::token_policy::{mint_extensions_supported, InvalidMintData};
use iron_vault::state::{MintAccount, ProtocolConfig, TokenAccount};

const DECIMALS: u8 = 6;
const INITIAL_BALANCE: u64 = 1_000_000;

#[derive(Clone, Copy)]
enum MintKind {
    Vanilla,
    PermanentDelegate,
    TransferHook,
    TransferFee,
    NonTransferable,
}

fn legacy_program() -> Pubkey {
    Pubkey(anchor_spl::token::ID.to_bytes())
}

fn token_2022_program() -> Pubkey {
    Pubkey(anchor_spl::token_interface::spl_token_2022::ID.to_bytes())
}

fn base_mint() -> Mint {
    Mint {
        mint_authority: COption::None,
        supply: INITIAL_BALANCE,
        decimals: DECIMALS,
        is_initialized: true,
        freeze_authority: COption::None,
    }
}

fn legacy_mint_data() -> Vec<u8> {
    let mut data = vec![0; Mint::LEN];
    Mint::pack(base_mint(), &mut data).unwrap();
    data
}

fn token_2022_mint_data(kind: MintKind) -> Vec<u8> {
    let extensions = match kind {
        MintKind::Vanilla => vec![],
        MintKind::PermanentDelegate => vec![ExtensionType::PermanentDelegate],
        MintKind::TransferHook => vec![ExtensionType::TransferHook],
        MintKind::TransferFee => vec![ExtensionType::TransferFeeConfig],
        MintKind::NonTransferable => vec![ExtensionType::NonTransferable],
    };
    if extensions.is_empty() {
        return legacy_mint_data();
    }
    let length = ExtensionType::try_calculate_account_len::<Mint>(&extensions).unwrap();
    let mut data = vec![0; length];
    let mut state = StateWithExtensionsMut::<Mint>::unpack_uninitialized(&mut data).unwrap();
    match kind {
        MintKind::Vanilla => unreachable!(),
        MintKind::PermanentDelegate => {
            state.init_extension::<PermanentDelegate>(true).unwrap();
        }
        MintKind::TransferHook => {
            state.init_extension::<TransferHook>(true).unwrap();
        }
        MintKind::TransferFee => {
            state.init_extension::<TransferFeeConfig>(true).unwrap();
        }
        MintKind::NonTransferable => {
            state.init_extension::<NonTransferable>(true).unwrap();
        }
    }
    state.base = base_mint();
    state.pack_base();
    state.init_account_type().unwrap();
    data
}

fn create_context(token_program: Pubkey, kind: MintKind) -> CreateEscrow {
    let maker = Pubkey([10; 32]);
    let mint = Pubkey([11; 32]);
    let data = if token_program == token_2022_program() {
        token_2022_mint_data(kind)
    } else {
        legacy_mint_data()
    };
    CreateEscrow {
        maker,
        protocol_config: ProtocolConfig {
            version: 1,
            admin: maker,
            guardian: Pubkey([12; 32]),
            pause_flags: 0,
            bump: 255,
        },
        mint: MintAccount {
            key: mint,
            program: token_program,
            decimals: DECIMALS,
            data,
        },
        maker_token: TokenAccount {
            key: Pubkey([13; 32]),
            program: token_program,
            mint,
            owner: maker,
            amount: INITIAL_BALANCE,
        },
        escrow: Pubkey([14; 32]),
        escrow_bump: 254,
        escrow_token: TokenAccount {
            key: Pubkey([15; 32]),
            program: token_program,
            mint,
            owner: Pubkey([14; 32]),
            amount: 0,
        },
        token_program,
    }
}

fn assert_supported(token_program: Pubkey, escrow_id: u64) {
    let ctx = create_context(token_program, MintKind::Vanilla);
    let amount = 250_000;
    let created = create(&ctx, 1_000, escrow_id, Pubkey([16; 32]), amount, 1_600).unwrap();
    assert_eq!(created.transfer.amount, amount);
    assert_eq!(created.transfer.source_after, INITIAL_BALANCE - amount);
    assert_eq!(created.transfer.destination_after, Some(amount));
    assert_eq!(created.escrow.token_program, token_program);
}

fn assert_extension_rejected(kind: MintKind, escrow_id: u64) {
    let ctx = create_context(token_2022_program(), kind);
    let result = create(&ctx, 1_000, escrow_id, Pubkey([16; 32]), 100, 1_600);
    assert!(matches!(
        result,
        Err(ProgramFailure::Vault(IronVaultError::UnsupportedTokenExtension))
    ));
}

#[test]
fn legacy_and_vanilla_token_2022_are_supported() {
    assert_eq!(mint_extensions_supported(&legacy_program(), &legacy_mint_data()), Ok(true));
    assert_eq!(
        mint_extensions_supported(&token_2022_program(), &legacy_mint_data()),
        Ok(true)
    );
}

#[test]
fn any_initialized_extension_is_rejected() {
    let data = token_2022_mint_data(MintKind::PermanentDelegate);
    assert_eq!(mint_extensions_supported(&token_2022_program(), &data), Ok(false));
}

#[test]
fn unreadable_token_2022_mint_data_is_invalid() {
    assert_eq!(
        mint_extensions_supported(&token_2022_program(), &[1, 2, 3]),
        Err(InvalidMintData)
    );
}

#[test]
fn legacy_mints_are_accepted_without_reading_their_data() {
    assert_eq!(mint_extensions_supported(&legacy_program(), &[1, 2, 3]), Ok(true));
}

#[test]
fn token2022_vanilla_supported() {
    assert_supported(token_2022_program(), 10_001);
}

#[test]
fn legacy_spl_still_supported() {
    assert_supported(legacy_program(), 10_002);
}

#[test]
fn permanent_delegate_mint_rejected() {
    assert_extension_rejected(MintKind::PermanentDelegate, 10_003);
}

#[test]
fn transfer_hook_mint_rejected() {
    assert_extension_rejected(MintKind::TransferHook, 10_004);
}

#[test]
fn transfer_fee_mint_rejected() {
    assert_extension_rejected(MintKind::TransferFee, 10_005);
}

#[test]
fn non_transferable_mint_rejected() {
    assert_extension_rejected(MintKind::NonTransferable, 10_006);
}
