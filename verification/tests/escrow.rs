use anchor_lang::solana_program::program_option::COption;
use anchor_lang::solana_program::program_pack::Pack;
use anchor_spl::token::spl_token::state::Mint as SplMint;
use iron_vault::constants::{PAUSE_ESCROW_CREATE, PAUSE_ESCROW_RELEASE};
use iron_vault::error::{IronVaultError, ProgramFailure};
use iron_vault::instructions::create_escrow::{create, CreateEscrow};
use iron_vault::instructions::initialize_protocol::{initialize_protocol_account, InitializeProtocol};
use iron_vault::instructions::refund_escrow::{refund, RefundEscrow};
use iron_vault::instructions::release_escrow::{release, ReleaseEscrow};
use iron_vault::instructions::set_protocol_pause::{set_pause, SetProtocolPause};
use iron_vault::instructions::TokenTransfer;
use iron_vault::pda::{escrow_address, escrow_token_address, protocol_address};
use iron_vault::pubkey::Pubkey;
use iron_vault::state::{Escrow, EscrowStatus, MintAccount, ProtocolConfig, TokenAccount};
use std::collections::HashMap;

const DECIMALS: u8 = 6;
const INITIAL_MAKER_BALANCE: u64 = 1_000_000;
const START: i64 = 1_700_000_000;

#[derive(Debug)]
enum TxError {
    Program(ProgramFailure),
    AccountInUse,
    AccountNotFound,
}

impl TxError {
    fn text(&self) -> String {
        match self {
            TxError::Program(ProgramFailure::Vault(e)) => e.message().to_owned(),
            other => format!("{other:?}"),
        }
    }
}

impl From<ProgramFailure> for TxError {
    fn from(f: ProgramFailure) -> Self {
        TxError::Program(f)
    }
}

fn assert_error_message<T: std::fmt::Debug>(result: Result<T, TxError>, expected: &str) {
    let failure = result.expect_err("instruction unexpectedly succeeded");
    assert!(
        failure.text().contains(expected),
        "expected error containing {expected:?}, got {failure:?}"
    );
}

fn spl_token_program() -> Pubkey {
    Pubkey(anchor_spl::token::ID.to_bytes())
}

fn system_program() -> Pubkey {
    Pubkey::default()
}

fn mint_data() -> Vec<u8> {
    let mint = SplMint {
        mint_authority: COption::None,
        supply: INITIAL_MAKER_BALANCE,
        decimals: DECIMALS,
        is_initialized: true,
        freeze_authority: COption::None,
    };
    let mut data = vec![0; SplMint::LEN];
    SplMint::pack(mint, &mut data).unwrap();
    data
}

/// The accounts of a small ledger, updated by applying accepted instructions.
struct Fixture {
    counter: u64,
    now: i64,
    protocol: ProtocolConfig,
    maker: Pubkey,
    recipient: Pubkey,
    attacker: Pubkey,
    mint: MintAccount,
    maker_token: Pubkey,
    recipient_token: Pubkey,
    tokens: HashMap<[u8; 32], TokenAccount>,
    escrows: HashMap<[u8; 32], Escrow>,
}

impl Fixture {
    fn new() -> Self {
        let mut fixture = Fixture {
            counter: 0,
            now: START,
            protocol: ProtocolConfig {
                version: 0,
                admin: Pubkey::default(),
                guardian: Pubkey::default(),
                pause_flags: 0,
                bump: 0,
            },
            maker: Pubkey::default(),
            recipient: Pubkey::default(),
            attacker: Pubkey::default(),
            mint: MintAccount {
                key: Pubkey::default(),
                program: spl_token_program(),
                decimals: DECIMALS,
                data: mint_data(),
            },
            maker_token: Pubkey::default(),
            recipient_token: Pubkey::default(),
            tokens: HashMap::new(),
            escrows: HashMap::new(),
        };
        fixture.maker = fixture.unique();
        fixture.recipient = fixture.unique();
        fixture.attacker = fixture.unique();
        fixture.mint.key = fixture.unique();
        let (protocol_key, bump) = protocol_address().unwrap();
        let init = initialize_protocol_account(
            &InitializeProtocol {
                initializer: fixture.maker,
                protocol_config: protocol_key,
                protocol_config_bump: bump,
            },
            fixture.maker,
            fixture.recipient,
        )
        .unwrap();
        fixture.protocol = init.config;
        let (maker, recipient, mint) = (fixture.maker, fixture.recipient, fixture.mint.key);
        fixture.maker_token = fixture.new_token_account(mint, maker, INITIAL_MAKER_BALANCE);
        fixture.recipient_token = fixture.new_token_account(mint, recipient, 0);
        fixture
    }

    fn unique(&mut self) -> Pubkey {
        self.counter += 1;
        let mut bytes = [7u8; 32];
        bytes[..8].copy_from_slice(&self.counter.to_le_bytes());
        Pubkey(bytes)
    }

    fn new_token_account(&mut self, mint: Pubkey, owner: Pubkey, amount: u64) -> Pubkey {
        let key = self.unique();
        self.set_token_account(key, mint, owner, amount);
        key
    }

    fn set_token_account(&mut self, key: Pubkey, mint: Pubkey, owner: Pubkey, amount: u64) {
        self.tokens.insert(
            key.0,
            TokenAccount { key, program: spl_token_program(), mint, owner, amount },
        );
    }

    fn token(&self, key: Pubkey) -> Result<TokenAccount, TxError> {
        self.tokens.get(&key.0).copied().ok_or(TxError::AccountNotFound)
    }

    fn balance(&self, key: Pubkey) -> u64 {
        self.tokens[&key.0].amount
    }

    fn apply_transfer(&mut self, transfer: &TokenTransfer) -> Result<(), TxError> {
        let mut source = self.token(transfer.source)?;
        let mut destination = self.token(transfer.destination)?;
        source.amount -= transfer.amount;
        destination.amount += transfer.amount;
        transfer
            .check_balances(source.amount, destination.amount)
            .map_err(|e| TxError::Program(ProgramFailure::Vault(e)))?;
        self.tokens.insert(source.key.0, source);
        self.tokens.insert(destination.key.0, destination);
        Ok(())
    }

    fn escrow_keys(&self, escrow_id: u64) -> (Pubkey, u8, Pubkey) {
        let (escrow, bump) = escrow_address(&self.maker, escrow_id).unwrap();
        let (escrow_token, _) = escrow_token_address(&escrow).unwrap();
        (escrow, bump, escrow_token)
    }

    fn escrow(&self, escrow_id: u64) -> Option<Escrow> {
        let (escrow, _, _) = self.escrow_keys(escrow_id);
        self.escrows.get(&escrow.0).copied()
    }

    fn set_pause(&mut self, caller: Pubkey, flags: u32) -> Result<(), TxError> {
        let (protocol_key, _) = protocol_address().unwrap();
        let mut config = self.protocol;
        set_pause(&SetProtocolPause { caller, protocol_config: protocol_key }, &mut config, flags)?;
        self.protocol = config;
        Ok(())
    }

    fn create(
        &mut self,
        escrow_id: u64,
        recipient: Pubkey,
        amount: u64,
        expires_at: i64,
    ) -> Result<(), TxError> {
        self.create_with(self.maker, escrow_id, recipient, amount, expires_at, spl_token_program())
    }

    fn create_with(
        &mut self,
        signer: Pubkey,
        escrow_id: u64,
        recipient: Pubkey,
        amount: u64,
        expires_at: i64,
        token_program: Pubkey,
    ) -> Result<(), TxError> {
        let (escrow, bump, escrow_token) = self.escrow_keys(escrow_id);
        if self.escrows.contains_key(&escrow.0) || self.tokens.contains_key(&escrow_token.0) {
            return Err(TxError::AccountInUse);
        }
        let custody = TokenAccount {
            key: escrow_token,
            program: token_program,
            mint: self.mint.key,
            owner: escrow,
            amount: 0,
        };
        let ctx = CreateEscrow {
            maker: signer,
            protocol_config: self.protocol,
            mint: self.mint.clone(),
            maker_token: self.token(self.maker_token)?,
            escrow,
            escrow_bump: bump,
            escrow_token: custody,
            token_program,
        };
        let created = create(&ctx, self.now, escrow_id, recipient, amount, expires_at)?;
        self.tokens.insert(escrow_token.0, custody);
        if let Err(e) = self.apply_transfer(&created.transfer) {
            self.tokens.remove(&escrow_token.0);
            return Err(e);
        }
        assert_eq!(created.event.escrow, escrow);
        assert_eq!(created.event.amount, amount);
        self.escrows.insert(escrow.0, created.escrow);
        Ok(())
    }

    fn release(&mut self, escrow_id: u64, signer: Pubkey, recipient_token: Pubkey) -> Result<(), TxError> {
        let (escrow_key, _, escrow_token) = self.escrow_keys(escrow_id);
        let escrow = self.escrows.get(&escrow_key.0).copied().ok_or(TxError::AccountNotFound)?;
        let ctx = ReleaseEscrow {
            maker: signer,
            protocol_config: self.protocol,
            escrow: escrow_key,
            mint: self.mint.clone(),
            escrow_token: self.token(escrow_token)?,
            recipient_token: self.token(recipient_token)?,
            token_program: spl_token_program(),
        };
        let released = release(&ctx, &escrow, self.now)?;
        self.apply_transfer(&released.transfer)?;
        self.escrows.insert(escrow_key.0, released.escrow);
        Ok(())
    }

    fn refund(&mut self, escrow_id: u64, caller: Pubkey, destination: Pubkey) -> Result<(), TxError> {
        let (escrow_key, _, escrow_token) = self.escrow_keys(escrow_id);
        let escrow = self.escrows.get(&escrow_key.0).copied().ok_or(TxError::AccountNotFound)?;
        let ctx = RefundEscrow {
            caller,
            escrow: escrow_key,
            mint: self.mint.clone(),
            escrow_token: self.token(escrow_token)?,
            maker_destination: self.token(destination)?,
            token_program: spl_token_program(),
        };
        let refunded = refund(&ctx, &escrow, self.now)?;
        assert_eq!(refunded.event.caller, caller);
        self.apply_transfer(&refunded.transfer)?;
        self.escrows.insert(escrow_key.0, refunded.escrow);
        Ok(())
    }
}

fn funded_fixture(escrow_id: u64, amount: u64) -> (Fixture, Pubkey) {
    let mut fixture = Fixture::new();
    let expires_at = fixture.now + 600;
    let recipient = fixture.recipient;
    fixture.create(escrow_id, recipient, amount, expires_at).unwrap();
    let (_, _, escrow_token) = fixture.escrow_keys(escrow_id);
    (fixture, escrow_token)
}

#[test]
fn protocol_initialization_stores_distinct_authorities() {
    let fixture = Fixture::new();
    let config = fixture.protocol;

    assert_eq!(config.version, 1);
    assert_eq!(config.admin, fixture.maker);
    assert_eq!(config.guardian, fixture.recipient);
    assert_eq!(config.pause_flags, 0);
}

#[test]
fn protocol_initialization_rejects_invalid_authorities() {
    let (protocol_key, bump) = protocol_address().unwrap();
    let initializer = Pubkey([21; 32]);
    let candidate_guardian = Pubkey([22; 32]);
    for case in 0..3 {
        let (admin, guardian) = match case {
            0 => (Pubkey::default(), candidate_guardian),
            1 => (initializer, Pubkey::default()),
            _ => (initializer, initializer),
        };
        let ctx = InitializeProtocol {
            initializer,
            protocol_config: protocol_key,
            protocol_config_bump: bump,
        };
        let result = initialize_protocol_account(&ctx, admin, guardian).map_err(TxError::from);
        assert_error_message(result, "Protocol authority configuration is invalid");
    }
}

#[test]
fn guardian_can_add_pause_flags_but_cannot_clear_them() {
    let mut fixture = Fixture::new();
    let guardian = fixture.recipient;
    fixture.set_pause(guardian, PAUSE_ESCROW_CREATE).unwrap();
    fixture.set_pause(guardian, PAUSE_ESCROW_CREATE | PAUSE_ESCROW_RELEASE).unwrap();

    let result = fixture.set_pause(guardian, PAUSE_ESCROW_RELEASE);
    assert_error_message(result, "Protocol guardian cannot clear pause flags");
    assert_eq!(fixture.protocol.pause_flags, PAUSE_ESCROW_CREATE | PAUSE_ESCROW_RELEASE);
}

#[test]
fn admin_can_clear_pause_flags_but_random_wallet_cannot_manage_them() {
    let mut fixture = Fixture::new();
    let guardian = fixture.recipient;
    fixture.set_pause(guardian, PAUSE_ESCROW_CREATE).unwrap();

    let attacker = fixture.attacker;
    let result = fixture.set_pause(attacker, PAUSE_ESCROW_RELEASE);
    assert_error_message(result, "Caller cannot manage protocol pause flags");

    let admin = fixture.maker;
    fixture.set_pause(admin, 0).unwrap();
    assert_eq!(fixture.protocol.pause_flags, 0);
}

#[test]
fn unknown_pause_flags_are_rejected() {
    let mut fixture = Fixture::new();
    let admin = fixture.maker;
    let result = fixture.set_pause(admin, 1 << 31);

    assert_error_message(result, "Protocol pause mask contains unknown flags");
    assert_eq!(fixture.protocol.pause_flags, 0);
}

#[test]
fn escrow_create_pause_is_directional_and_admin_can_resume() {
    let mut fixture = Fixture::new();
    let guardian = fixture.recipient;
    fixture.set_pause(guardian, PAUSE_ESCROW_CREATE).unwrap();
    let expires_at = fixture.now + 600;
    let recipient = fixture.recipient;
    let result = fixture.create(500, recipient, 100, expires_at);
    assert_error_message(result, "Protocol operation is paused");
    assert!(fixture.escrow(500).is_none());

    let admin = fixture.maker;
    fixture.set_pause(admin, 0).unwrap();
    fixture.create(500, recipient, 100, expires_at).unwrap();
}

#[test]
fn release_pause_never_blocks_expired_refund() {
    let amount = 100;
    let (mut fixture, escrow_token) = funded_fixture(501, amount);
    let guardian = fixture.recipient;
    fixture.set_pause(guardian, PAUSE_ESCROW_RELEASE).unwrap();
    let (maker, recipient_token) = (fixture.maker, fixture.recipient_token);
    let result = fixture.release(501, maker, recipient_token);
    assert_error_message(result, "Protocol operation is paused");
    assert_eq!(fixture.balance(escrow_token), amount);

    fixture.now = fixture.escrow(501).unwrap().expires_at;
    let (attacker, maker_token) = (fixture.attacker, fixture.maker_token);
    fixture.refund(501, attacker, maker_token).unwrap();
    assert_eq!(fixture.balance(escrow_token), 0);
    assert_eq!(fixture.escrow(501).unwrap().status, EscrowStatus::Refunded);
}

#[test]
fn create_valid_escrow_succeeds() {
    let mut fixture = Fixture::new();
    let escrow_id = 7;
    let amount = 400_000;
    let expires_at = fixture.now + 600;
    let (escrow, _, escrow_token) = fixture.escrow_keys(escrow_id);

    let recipient = fixture.recipient;
    fixture.create(escrow_id, recipient, amount, expires_at).unwrap();
    assert_eq!(fixture.balance(fixture.maker_token), INITIAL_MAKER_BALANCE - amount);
    assert_eq!(fixture.balance(escrow_token), amount);

    let state = fixture.escrow(escrow_id).unwrap();
    assert_eq!(state.maker, fixture.maker);
    assert_eq!(state.recipient, fixture.recipient);
    assert_eq!(state.mint, fixture.mint.key);
    assert_eq!(state.token_program, spl_token_program());
    assert_eq!(state.escrow_id, escrow_id);
    assert_eq!(state.amount, amount);
    assert_eq!(state.expires_at, expires_at);
    assert_eq!(state.status, EscrowStatus::Funded);
    assert_eq!(fixture.token(escrow_token).unwrap().owner, escrow);
}

#[test]
fn zero_amount_rejected() {
    let mut fixture = Fixture::new();
    let escrow_id = 8;
    let (_, _, escrow_token) = fixture.escrow_keys(escrow_id);
    let (recipient, expires_at) = (fixture.recipient, fixture.now + 100);
    let result = fixture.create(escrow_id, recipient, 0, expires_at);

    assert_error_message(result, "Escrow amount must be greater than zero");
    assert!(fixture.escrow(escrow_id).is_none());
    assert!(fixture.token(escrow_token).is_err());
    assert_eq!(fixture.balance(fixture.maker_token), INITIAL_MAKER_BALANCE);
}

#[test]
fn maker_must_sign() {
    let mut fixture = Fixture::new();
    let (attacker, recipient, expires_at) = (fixture.attacker, fixture.recipient, fixture.now + 100);
    let result = fixture.create_with(attacker, 9, recipient, 1, expires_at, spl_token_program());
    assert_error_message(result, "Maker does not own the source token account");
    assert_eq!(fixture.balance(fixture.maker_token), INITIAL_MAKER_BALANCE);
}

#[test]
fn wrong_source_owner_rejected() {
    let mut fixture = Fixture::new();
    let (maker_token, mint, attacker) = (fixture.maker_token, fixture.mint.key, fixture.attacker);
    fixture.set_token_account(maker_token, mint, attacker, INITIAL_MAKER_BALANCE);
    let (recipient, expires_at) = (fixture.recipient, fixture.now + 100);
    let result = fixture.create(10, recipient, 1, expires_at);

    assert_error_message(result, "Maker does not own the source token account");
}

#[test]
fn wrong_source_mint_rejected() {
    let mut fixture = Fixture::new();
    let wrong_mint = fixture.unique();
    let (maker_token, maker) = (fixture.maker_token, fixture.maker);
    fixture.set_token_account(maker_token, wrong_mint, maker, INITIAL_MAKER_BALANCE);
    let (recipient, expires_at) = (fixture.recipient, fixture.now + 100);
    let result = fixture.create(11, recipient, 1, expires_at);

    assert_error_message(result, "Source token account mint does not match");
}

#[test]
fn fake_token_program_rejected() {
    let mut fixture = Fixture::new();
    let escrow_id = 12;
    let (_, _, escrow_token) = fixture.escrow_keys(escrow_id);
    let (maker, recipient, expires_at) = (fixture.maker, fixture.recipient, fixture.now + 100);
    let result = fixture.create_with(maker, escrow_id, recipient, 1, expires_at, system_program());

    assert!(result.is_err());
    assert!(fixture.escrow(escrow_id).is_none());
    assert!(fixture.token(escrow_token).is_err());
    assert_eq!(fixture.balance(fixture.maker_token), INITIAL_MAKER_BALANCE);
}

#[test]
fn duplicate_escrow_id_rejected() {
    let mut fixture = Fixture::new();
    let escrow_id = 13;
    let amount = 25;
    let (recipient, expires_at) = (fixture.recipient, fixture.now + 100);
    fixture.create(escrow_id, recipient, amount, expires_at).unwrap();

    let result = fixture.create(escrow_id, recipient, amount, expires_at);
    let (_, _, escrow_token) = fixture.escrow_keys(escrow_id);

    assert!(result.is_err());
    assert_eq!(fixture.balance(escrow_token), amount);
    assert_eq!(fixture.balance(fixture.maker_token), INITIAL_MAKER_BALANCE - amount);
}

#[test]
fn invalid_expiry_rejected() {
    let mut fixture = Fixture::new();
    let escrow_id = 14;
    let (_, _, escrow_token) = fixture.escrow_keys(escrow_id);
    let (recipient, now) = (fixture.recipient, fixture.now);
    let result = fixture.create(escrow_id, recipient, 1, now);

    assert_error_message(result, "Escrow expiry must be in the future");
    assert!(fixture.escrow(escrow_id).is_none());
    assert!(fixture.token(escrow_token).is_err());
    assert_eq!(fixture.balance(fixture.maker_token), INITIAL_MAKER_BALANCE);
}

#[test]
fn escrow_vault_receives_exact_amount() {
    let mut fixture = Fixture::new();
    let escrow_id = 15;
    let amount = 123_456;
    let (escrow, _, escrow_token) = fixture.escrow_keys(escrow_id);
    let (recipient, expires_at) = (fixture.recipient, fixture.now + 100);
    fixture.create(escrow_id, recipient, amount, expires_at).unwrap();

    assert_eq!(fixture.balance(escrow_token), amount);
    assert_eq!(fixture.balance(fixture.maker_token), INITIAL_MAKER_BALANCE - amount);
    assert_eq!(fixture.token(escrow_token).unwrap().owner, escrow);
}

#[test]
fn insufficient_maker_funds_rejected() {
    let mut fixture = Fixture::new();
    let (recipient, expires_at) = (fixture.recipient, fixture.now + 100);
    let result = fixture.create(16, recipient, INITIAL_MAKER_BALANCE + 1, expires_at);
    assert_error_message(result, "Source token account has insufficient funds");
}

#[test]
fn maker_can_release() {
    let escrow_id = 20;
    let amount = 250_000;
    let (mut fixture, escrow_token) = funded_fixture(escrow_id, amount);

    let (maker, recipient_token) = (fixture.maker, fixture.recipient_token);
    fixture.release(escrow_id, maker, recipient_token).unwrap();
    assert_eq!(fixture.balance(escrow_token), 0);
    assert_eq!(fixture.balance(recipient_token), amount);
    assert_eq!(fixture.escrow(escrow_id).unwrap().status, EscrowStatus::Released);
}

#[test]
fn recipient_cannot_release() {
    let escrow_id = 21;
    let amount = 250_000;
    let (mut fixture, escrow_token) = funded_fixture(escrow_id, amount);
    let (recipient, recipient_token) = (fixture.recipient, fixture.recipient_token);
    let result = fixture.release(escrow_id, recipient, recipient_token);

    assert!(result.is_err());
    assert_eq!(fixture.balance(escrow_token), amount);
    assert_eq!(fixture.balance(recipient_token), 0);
    assert_eq!(fixture.escrow(escrow_id).unwrap().status, EscrowStatus::Funded);
}

#[test]
fn random_wallet_cannot_release() {
    let escrow_id = 22;
    let amount = 250_000;
    let (mut fixture, escrow_token) = funded_fixture(escrow_id, amount);
    let (attacker, recipient_token) = (fixture.attacker, fixture.recipient_token);
    let result = fixture.release(escrow_id, attacker, recipient_token);

    assert!(result.is_err());
    assert_eq!(fixture.balance(escrow_token), amount);
    assert_eq!(fixture.balance(recipient_token), 0);
    assert_eq!(fixture.escrow(escrow_id).unwrap().status, EscrowStatus::Funded);
}

#[test]
fn wrong_recipient_token_account_rejected() {
    let escrow_id = 23;
    let amount = 250_000;
    let (mut fixture, escrow_token) = funded_fixture(escrow_id, amount);
    let (mint, attacker, maker) = (fixture.mint.key, fixture.attacker, fixture.maker);
    let attacker_token = fixture.new_token_account(mint, attacker, 0);
    let result = fixture.release(escrow_id, maker, attacker_token);

    assert_error_message(result, "Release destination is not owned by the escrow recipient");
    assert_eq!(fixture.balance(escrow_token), amount);
    assert_eq!(fixture.escrow(escrow_id).unwrap().status, EscrowStatus::Funded);
}

#[test]
fn wrong_mint_rejected() {
    let escrow_id = 24;
    let amount = 250_000;
    let (mut fixture, escrow_token) = funded_fixture(escrow_id, amount);
    let wrong_mint = fixture.unique();
    let (recipient, maker) = (fixture.recipient, fixture.maker);
    let wrong_token = fixture.new_token_account(wrong_mint, recipient, 0);
    let result = fixture.release(escrow_id, maker, wrong_token);

    assert_error_message(result, "Release destination mint does not match");
    assert_eq!(fixture.balance(escrow_token), amount);
    assert_eq!(fixture.escrow(escrow_id).unwrap().status, EscrowStatus::Funded);
}

#[test]
fn release_transfers_exact_amount() {
    let mut fixture = Fixture::new();
    let escrow_id = 25;
    let amount = 333_333;
    let recipient_before = 17;
    let (recipient_token, mint, recipient) =
        (fixture.recipient_token, fixture.mint.key, fixture.recipient);
    fixture.set_token_account(recipient_token, mint, recipient, recipient_before);
    let (_, _, escrow_token) = fixture.escrow_keys(escrow_id);
    let expires_at = fixture.now + 600;
    fixture.create(escrow_id, recipient, amount, expires_at).unwrap();
    let maker = fixture.maker;
    fixture.release(escrow_id, maker, recipient_token).unwrap();

    assert_eq!(fixture.balance(escrow_token), 0);
    assert_eq!(fixture.balance(recipient_token), recipient_before + amount);
}

#[test]
fn released_escrow_cannot_release_again() {
    let escrow_id = 26;
    let amount = 250_000;
    let (mut fixture, escrow_token) = funded_fixture(escrow_id, amount);
    let (maker, recipient_token) = (fixture.maker, fixture.recipient_token);
    fixture.release(escrow_id, maker, recipient_token).unwrap();

    let result = fixture.release(escrow_id, maker, recipient_token);
    assert_error_message(result, "Escrow is not funded");
    assert_eq!(fixture.balance(escrow_token), 0);
    assert_eq!(fixture.balance(recipient_token), amount);
    assert_eq!(fixture.escrow(escrow_id).unwrap().status, EscrowStatus::Released);
}

#[test]
fn self_recipient_rejected() {
    let mut fixture = Fixture::new();
    let (maker, expires_at) = (fixture.maker, fixture.now + 100);
    let result = fixture.create(30, maker, 1, expires_at);
    assert_error_message(result, "Escrow recipient is invalid");
}

#[test]
fn default_recipient_rejected() {
    let mut fixture = Fixture::new();
    let expires_at = fixture.now + 100;
    let result = fixture.create(33, Pubkey::default(), 1, expires_at);
    assert_error_message(result, "Escrow recipient is invalid");
}

#[test]
fn create_rejects_an_uninitialized_mint() {
    let fixture = Fixture::new();
    let result = MintAccount::read(fixture.mint.key, spl_token_program(), vec![0; SplMint::LEN]);
    assert!(result.is_err());
    let initialized = MintAccount::read(fixture.mint.key, spl_token_program(), mint_data()).unwrap();
    assert_eq!(initialized.decimals, DECIMALS);
}

#[test]
fn release_at_expiry_rejected() {
    let escrow_id = 32;
    let amount = 250_000;
    let (mut fixture, escrow_token) = funded_fixture(escrow_id, amount);
    fixture.now = fixture.escrow(escrow_id).unwrap().expires_at;
    let (maker, recipient_token) = (fixture.maker, fixture.recipient_token);
    let result = fixture.release(escrow_id, maker, recipient_token);
    assert_error_message(result, "Escrow has expired");

    assert_eq!(fixture.balance(escrow_token), amount);
    assert_eq!(fixture.balance(recipient_token), 0);
    assert_eq!(fixture.escrow(escrow_id).unwrap().status, EscrowStatus::Funded);
}

#[test]
fn refund_before_expiry_fails() {
    let escrow_id = 40;
    let amount = 200_000;
    let (mut fixture, escrow_token) = funded_fixture(escrow_id, amount);
    let maker_balance = fixture.balance(fixture.maker_token);
    let (attacker, maker_token) = (fixture.attacker, fixture.maker_token);
    let result = fixture.refund(escrow_id, attacker, maker_token);

    assert_error_message(result, "Escrow has not expired");
    assert_eq!(fixture.balance(escrow_token), amount);
    assert_eq!(fixture.balance(maker_token), maker_balance);
    assert_eq!(fixture.escrow(escrow_id).unwrap().status, EscrowStatus::Funded);
}

#[test]
fn refund_at_expiry_succeeds() {
    let escrow_id = 41;
    let amount = 200_000;
    let (mut fixture, escrow_token) = funded_fixture(escrow_id, amount);
    fixture.now = fixture.escrow(escrow_id).unwrap().expires_at;
    let (maker, maker_token) = (fixture.maker, fixture.maker_token);
    fixture.refund(escrow_id, maker, maker_token).unwrap();

    assert_eq!(fixture.balance(escrow_token), 0);
    assert_eq!(fixture.balance(maker_token), INITIAL_MAKER_BALANCE);
    assert_eq!(fixture.escrow(escrow_id).unwrap().status, EscrowStatus::Refunded);
}

#[test]
fn refund_after_expiry_succeeds() {
    let escrow_id = 42;
    let amount = 200_000;
    let (mut fixture, escrow_token) = funded_fixture(escrow_id, amount);
    fixture.now = fixture.escrow(escrow_id).unwrap().expires_at + 1;
    let (maker, maker_token) = (fixture.maker, fixture.maker_token);
    fixture.refund(escrow_id, maker, maker_token).unwrap();

    assert_eq!(fixture.balance(escrow_token), 0);
    assert_eq!(fixture.balance(maker_token), INITIAL_MAKER_BALANCE);
    assert_eq!(fixture.escrow(escrow_id).unwrap().status, EscrowStatus::Refunded);
}

#[test]
fn random_caller_can_trigger_refund() {
    let escrow_id = 43;
    let amount = 200_000;
    let (mut fixture, escrow_token) = funded_fixture(escrow_id, amount);
    fixture.now = fixture.escrow(escrow_id).unwrap().expires_at;
    let (attacker, maker_token) = (fixture.attacker, fixture.maker_token);
    fixture.refund(escrow_id, attacker, maker_token).unwrap();

    assert_eq!(fixture.balance(escrow_token), 0);
    assert_eq!(fixture.balance(maker_token), INITIAL_MAKER_BALANCE);
    assert_eq!(fixture.escrow(escrow_id).unwrap().status, EscrowStatus::Refunded);
}

#[test]
fn random_caller_cannot_redirect_refund() {
    let escrow_id = 44;
    let amount = 200_000;
    let (mut fixture, escrow_token) = funded_fixture(escrow_id, amount);
    fixture.now = fixture.escrow(escrow_id).unwrap().expires_at;
    let (mint, attacker) = (fixture.mint.key, fixture.attacker);
    let attacker_token = fixture.new_token_account(mint, attacker, 0);
    let result = fixture.refund(escrow_id, attacker, attacker_token);

    assert_error_message(result, "Refund destination is not owned by the escrow maker");
    assert_eq!(fixture.balance(escrow_token), amount);
    assert_eq!(fixture.balance(attacker_token), 0);
    assert_eq!(fixture.escrow(escrow_id).unwrap().status, EscrowStatus::Funded);
}

#[test]
fn refund_wrong_destination_mint_rejected() {
    let escrow_id = 48;
    let amount = 200_000;
    let (mut fixture, escrow_token) = funded_fixture(escrow_id, amount);
    fixture.now = fixture.escrow(escrow_id).unwrap().expires_at;
    let wrong_mint = fixture.unique();
    let (maker, attacker) = (fixture.maker, fixture.attacker);
    let wrong_token = fixture.new_token_account(wrong_mint, maker, 0);
    let result = fixture.refund(escrow_id, attacker, wrong_token);

    assert_error_message(result, "Refund destination mint does not match");
    assert_eq!(fixture.balance(escrow_token), amount);
    assert_eq!(fixture.balance(wrong_token), 0);
    assert_eq!(fixture.escrow(escrow_id).unwrap().status, EscrowStatus::Funded);
}

#[test]
fn released_escrow_cannot_refund() {
    let escrow_id = 45;
    let amount = 200_000;
    let (mut fixture, escrow_token) = funded_fixture(escrow_id, amount);
    let expires_at = fixture.escrow(escrow_id).unwrap().expires_at;
    let (maker, recipient_token) = (fixture.maker, fixture.recipient_token);
    fixture.release(escrow_id, maker, recipient_token).unwrap();
    fixture.now = expires_at;
    let (attacker, maker_token) = (fixture.attacker, fixture.maker_token);
    let result = fixture.refund(escrow_id, attacker, maker_token);

    assert_error_message(result, "Escrow is not funded");
    assert_eq!(fixture.balance(escrow_token), 0);
    assert_eq!(fixture.balance(recipient_token), amount);
    assert_eq!(fixture.escrow(escrow_id).unwrap().status, EscrowStatus::Released);
}

#[test]
fn refunded_escrow_cannot_release() {
    let escrow_id = 46;
    let amount = 200_000;
    let (mut fixture, escrow_token) = funded_fixture(escrow_id, amount);
    fixture.now = fixture.escrow(escrow_id).unwrap().expires_at;
    let (attacker, maker_token) = (fixture.attacker, fixture.maker_token);
    fixture.refund(escrow_id, attacker, maker_token).unwrap();
    let (maker, recipient_token) = (fixture.maker, fixture.recipient_token);
    let result = fixture.release(escrow_id, maker, recipient_token);

    assert_error_message(result, "Escrow is not funded");
    assert_eq!(fixture.balance(escrow_token), 0);
    assert_eq!(fixture.balance(recipient_token), 0);
    assert_eq!(fixture.escrow(escrow_id).unwrap().status, EscrowStatus::Refunded);
}

#[test]
fn refund_cannot_execute_twice() {
    let escrow_id = 47;
    let amount = 200_000;
    let (mut fixture, escrow_token) = funded_fixture(escrow_id, amount);
    fixture.now = fixture.escrow(escrow_id).unwrap().expires_at;
    let (attacker, maker_token) = (fixture.attacker, fixture.maker_token);
    fixture.refund(escrow_id, attacker, maker_token).unwrap();
    let result = fixture.refund(escrow_id, attacker, maker_token);

    assert_error_message(result, "Escrow is not funded");
    assert_eq!(fixture.balance(escrow_token), 0);
    assert_eq!(fixture.balance(maker_token), INITIAL_MAKER_BALANCE);
    assert_eq!(fixture.escrow(escrow_id).unwrap().status, EscrowStatus::Refunded);
}

#[test]
fn escrow_error_codes_follow_the_declaration_order() {
    assert_eq!(IronVaultError::UnsupportedVersion.code(), 6000);
    assert_eq!(IronVaultError::ProtocolPaused.code(), 6005);
}
