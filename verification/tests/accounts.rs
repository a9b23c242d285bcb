use anchor_lang::solana_program::program_option::COption;
use anchor_lang::solana_program::program_pack::Pack;
use anchor_spl::token::spl_token::state::{Account as SplTokenAccount, AccountState};
use iron_vault::pda::{
    escrow_address, escrow_token_address, protocol_address, role_address, vault_address,
    vault_asset_address, vault_token_address, withdrawal_address,
};
use iron_vault::pubkey::{program_id, Pubkey};
use iron_vault::state::TokenAccount;

fn anchor_key(key: Pubkey) -> anchor_lang::prelude::Pubkey {
    anchor_lang::prelude::Pubkey::new_from_array(key.0)
}

fn expected(seeds: &[&[u8]]) -> (Pubkey, u8) {
    let (address, bump) =
        anchor_lang::prelude::Pubkey::find_program_address(seeds, &anchor_key(program_id()));
    (Pubkey(address.to_bytes()), bump)
}

#[test]
fn program_id_is_the_deployed_address() {
    assert_eq!(program_id().to_base58(), "2UWmTuefm4gqbfuZP36NSJMMSKLM4Rbop25jf1uBZAu1");
}

#[test]
fn addresses_are_derived_from_the_documented_seeds() {
    let maker = Pubkey([3; 32]);
    let escrow = escrow_address(&maker, 7).unwrap();
    assert_eq!(escrow, expected(&[b"escrow", &maker.0, &7u64.to_le_bytes()]));
    assert_ne!(escrow.0, maker);
    assert_eq!(
        escrow_token_address(&escrow.0).unwrap(),
        expected(&[b"escrow_token", &escrow.0 .0])
    );
    assert_eq!(protocol_address().unwrap(), expected(&[b"protocol"]));
    let vault = vault_address(&maker, 9).unwrap();
    assert_eq!(vault, expected(&[b"vault", &maker.0, &9u64.to_le_bytes()]));
    let mint = Pubkey([4; 32]);
    assert_eq!(
        vault_asset_address(&vault.0, &mint).unwrap(),
        expected(&[b"vault_asset", &vault.0 .0, &mint.0])
    );
    assert_eq!(
        vault_token_address(&vault.0, &mint).unwrap(),
        expected(&[b"vault_token", &vault.0 .0, &mint.0])
    );
    assert_eq!(
        role_address(&vault.0, &maker).unwrap(),
        expected(&[b"role", &vault.0 .0, &maker.0])
    );
    assert_eq!(
        withdrawal_address(&vault.0, 2).unwrap(),
        expected(&[b"withdrawal", &vault.0 .0, &2u64.to_le_bytes()])
    );
}

#[test]
fn token_accounts_are_read_from_their_data() {
    let token = SplTokenAccount {
        mint: anchor_key(Pubkey([5; 32])),
        owner: anchor_key(Pubkey([6; 32])),
        amount: 77,
        delegate: COption::None,
        state: AccountState::Initialized,
        is_native: COption::None,
        delegated_amount: 0,
        close_authority: COption::None,
    };
    let mut data = vec![0; SplTokenAccount::LEN];
    SplTokenAccount::pack(token, &mut data).unwrap();
    let program = Pubkey(anchor_spl::token::ID.to_bytes());
    let read = TokenAccount::read(Pubkey([8; 32]), program, &data).unwrap();
    assert_eq!(read.key, Pubkey([8; 32]));
    assert_eq!(read.mint, Pubkey([5; 32]));
    assert_eq!(read.owner, Pubkey([6; 32]));
    assert_eq!(read.amount, 77);
    assert!(TokenAccount::read(Pubkey([8; 32]), program, &vec![0; SplTokenAccount::LEN]).is_err());
}
