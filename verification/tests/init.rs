use vprog::address::Address;
use vprog::codec::CodecError;
use vprog::collateral::CollateralInfos;
use vprog::derive::{derive_all, Derivations, DerivedAddress};
use vprog::init::{
    advance, initialize_strategy, initialize_with_derived, is_authorized, is_blank,
    CreationPolicy, InitError, InitState, InitializeStrategy, MintInfo,
    SHARES_MINT_DECIMALS, STRATEGY_ACCOUNT_LEN,
};
use vprog::layout::Layout;
use vprog::policy::GlobalConfig;
use vprog::strategy::WhirlpoolStrategy;

fn address(seed: u8) -> Address {
    Address::new([seed; 32])
}

const PROGRAM: u8 = 100;
const ADMIN: u8 = 1;
const ACTIONS: u8 = 2;
const POLICY: u8 = 3;
const REGISTRY: u8 = 4;
const MINT_A: u8 = 5;
const MINT_B: u8 = 6;
const STRATEGY: u8 = 7;
const TOKEN_PROGRAM: u8 = 8;
const TOKEN_2022: u8 = 9;
const POOL: u8 = 10;
const VAULT_AUTHORITY: u8 = 11;
const SHARES_AUTHORITY: u8 = 12;

struct Setup {
    accounts: InitializeStrategy,
    policy: GlobalConfig,
    registry: CollateralInfos,
    slot: Vec<u8>,
}

/// A policy record that refers to a registry with mint A at id 0 and mint B at
/// id 1, a blank slot, and the addresses derived for it.
fn setup() -> Setup {
    let mut policy = GlobalConfig::default();
    policy.admin_authority = address(ADMIN);
    policy.actions_authority = address(ACTIONS);
    policy.token_infos = address(REGISTRY);
    let mut registry = CollateralInfos::zeroed();
    registry.infos[0].mint = address(MINT_A);
    registry.infos[1].mint = address(MINT_B);
    let derived = derive_all(&address(STRATEGY), &address(MINT_A), &address(MINT_B), &address(PROGRAM));
    let accounts = InitializeStrategy {
        program_id: address(PROGRAM),
        creation_policy: CreationPolicy::AdminOnly,
        admin_authority: address(ADMIN),
        admin_is_signer: true,
        global_config: address(POLICY),
        pool: address(POOL),
        token_a_mint: MintInfo { address: address(MINT_A), decimals: 6, token_program: address(TOKEN_PROGRAM) },
        token_b_mint: MintInfo { address: address(MINT_B), decimals: 9, token_program: address(TOKEN_2022) },
        token_a_vault: derived.token_a_vault.expect("a bump exists").address,
        token_b_vault: derived.token_b_vault.expect("a bump exists").address,
        base_vault_authority: address(VAULT_AUTHORITY),
        shares_mint: derived.shares_mint.expect("a bump exists").address,
        shares_mint_authority: address(SHARES_AUTHORITY),
        token_infos: address(REGISTRY),
        token_a_token_program: address(TOKEN_PROGRAM),
        token_b_token_program: address(TOKEN_2022),
        strategy: address(STRATEGY),
    };
    Setup { accounts, policy, registry, slot: vec![0u8; STRATEGY_ACCOUNT_LEN] }
}

fn run(s: &mut Setup) -> Result<vprog::init::Created, InitError> {
    initialize_strategy(&s.accounts, &s.policy, &s.registry, &mut s.slot, 0, 1, 2)
}

fn assert_refused(s: &mut Setup, expected: InitError) {
    let before = s.slot.clone();
    assert_eq!(run(s), Err(expected));
    assert_eq!(s.slot, before);
}

#[test]
fn successful_initialization_populates_the_record() {
    let mut s = setup();
    let created = run(&mut s).expect("every check passes");
    let record = created.strategy;
    assert_eq!(record.token_a_collateral_id, 0);
    assert_eq!(record.token_b_collateral_id, 1);
    assert_eq!(record.shares_mint_decimals, 6);
    assert_eq!(SHARES_MINT_DECIMALS, 6);
    assert_eq!(record.admin_authority, address(ADMIN));
    assert_eq!(record.global_config, address(POLICY));
    assert_eq!(record.pool, address(POOL));
    assert_eq!(record.base_vault_authority, address(VAULT_AUTHORITY));
    assert_eq!(record.shares_mint_authority, address(SHARES_AUTHORITY));
    assert_eq!(record.token_a_mint, address(MINT_A));
    assert_eq!(record.token_b_mint, address(MINT_B));
    assert_eq!(record.token_a_mint_decimals, 6);
    assert_eq!(record.token_b_mint_decimals, 9);
    assert_eq!(record.token_a_vault, s.accounts.token_a_vault);
    assert_eq!(record.token_b_vault, s.accounts.token_b_vault);
    assert_eq!(record.shares_mint, s.accounts.shares_mint);
    assert_eq!(record.token_a_token_program, address(TOKEN_PROGRAM));
    assert_eq!(record.token_b_token_program, address(TOKEN_2022));
    assert_eq!(record.base_vault_authority_bump, 0);
    assert_eq!(record.shares_issued, 0);
    assert_eq!(record.pending_admin, Address::zeroed());

    assert_eq!(created.token_a_vault.address, s.accounts.token_a_vault);
    assert_eq!(created.token_a_vault.mint, address(MINT_A));
    assert_eq!(created.token_a_vault.authority, address(VAULT_AUTHORITY));
    assert_eq!(created.token_a_vault.token_program, address(TOKEN_PROGRAM));
    assert_eq!(created.token_b_vault.address, s.accounts.token_b_vault);
    assert_eq!(created.token_b_vault.mint, address(MINT_B));
    assert_eq!(created.token_b_vault.authority, address(VAULT_AUTHORITY));
    assert_eq!(created.token_b_vault.token_program, address(TOKEN_2022));
    assert_eq!(created.shares_mint.address, s.accounts.shares_mint);
    assert_eq!(created.shares_mint.authority, address(SHARES_AUTHORITY));
    assert_eq!(created.shares_mint.decimals, 6);

    assert_eq!(s.slot, record.encode());
    assert_eq!(WhirlpoolStrategy::decode(&s.slot), Ok(record));
}

#[test]
fn only_the_named_fields_are_set() {
    let mut s = setup();
    let record = run(&mut s).expect("every check passes").strategy;
    let mut expected = WhirlpoolStrategy::zeroed();
    expected.admin_authority = address(ADMIN);
    expected.global_config = address(POLICY);
    expected.base_vault_authority = address(VAULT_AUTHORITY);
    expected.pool = address(POOL);
    expected.token_a_vault = s.accounts.token_a_vault;
    expected.token_b_vault = s.accounts.token_b_vault;
    expected.token_a_mint = address(MINT_A);
    expected.token_b_mint = address(MINT_B);
    expected.token_a_mint_decimals = 6;
    expected.token_b_mint_decimals = 9;
    expected.token_a_collateral_id = 0;
    expected.token_b_collateral_id = 1;
    expected.shares_mint = s.accounts.shares_mint;
    expected.shares_mint_decimals = 6;
    expected.shares_mint_authority = address(SHARES_AUTHORITY);
    expected.token_a_token_program = address(TOKEN_PROGRAM);
    expected.token_b_token_program = address(TOKEN_2022);
    assert_eq!(record, expected);
}

#[test]
fn stored_addresses_can_be_derived_again() {
    let mut s = setup();
    let created = run(&mut s).expect("every check passes");
    let record = WhirlpoolStrategy::decode(&s.slot).expect("the record was committed");
    let again = derive_all(&s.accounts.strategy, &record.token_a_mint, &record.token_b_mint, &s.accounts.program_id);
    assert_eq!(again.token_a_vault.map(|d| d.address), Some(record.token_a_vault));
    assert_eq!(again.token_b_vault.map(|d| d.address), Some(record.token_b_vault));
    assert_eq!(again.shares_mint.map(|d| d.address), Some(record.shares_mint));
    assert_eq!(again.token_a_vault.map(|d| d.bump), Some(created.token_a_vault.bump));
    assert_eq!(again.token_b_vault.map(|d| d.bump), Some(created.token_b_vault.bump));
    assert_eq!(again.shares_mint.map(|d| d.bump), Some(created.shares_mint.bump));
}

#[test]
fn second_initialization_is_refused() {
    let mut s = setup();
    run(&mut s).expect("the first attempt succeeds");
    let committed = s.slot.clone();
    assert_eq!(run(&mut s), Err(InitError::AlreadyInitialized));
    assert_eq!(s.slot, committed);
    s.accounts.pool = address(77);
    assert_eq!(run(&mut s), Err(InitError::AlreadyInitialized));
    assert_eq!(s.slot, committed);
}

#[test]
fn slot_of_the_wrong_size_or_content_is_refused() {
    let mut s = setup();
    s.slot = vec![0u8; STRATEGY_ACCOUNT_LEN - 1];
    assert_refused(&mut s, InitError::AlreadyInitialized);
    s.slot = vec![0u8; STRATEGY_ACCOUNT_LEN + 1];
    assert_refused(&mut s, InitError::AlreadyInitialized);
    s.slot = Vec::new();
    assert_refused(&mut s, InitError::AlreadyInitialized);
    s.slot = vec![0u8; STRATEGY_ACCOUNT_LEN];
    s.slot[STRATEGY_ACCOUNT_LEN - 1] = 1;
    assert_refused(&mut s, InitError::AlreadyInitialized);
    s.slot = vec![0u8; STRATEGY_ACCOUNT_LEN];
    s.slot[0] = 1;
    assert_refused(&mut s, InitError::AlreadyInitialized);
    assert!(is_blank(&vec![0u8; 4064]));
    assert!(!is_blank(&vec![0u8; 4063]));
}

#[test]
fn disabled_collateral_is_refused() {
    let mut s = setup();
    s.registry.infos[0].disabled = 1;
    assert_refused(&mut s, InitError::UnknownOrDisabledCollateral);
    let mut s = setup();
    s.registry.infos[1].disabled = 255;
    assert_refused(&mut s, InitError::UnknownOrDisabledCollateral);
}

#[test]
fn unknown_collateral_is_refused() {
    let mut s = setup();
    s.registry.infos[1].mint = address(99);
    assert_refused(&mut s, InitError::UnknownOrDisabledCollateral);
    let mut s = setup();
    s.accounts.token_a_mint.address = Address::zeroed();
    assert_refused(&mut s, InitError::UnknownOrDisabledCollateral);
}

#[test]
fn blank_registry_is_refused() {
    let mut s = setup();
    s.registry = CollateralInfos::zeroed();
    s.accounts.token_a_mint.decimals = 6;
    s.accounts.token_b_mint.decimals = 6;
    s.accounts.token_a_token_program = address(TOKEN_PROGRAM);
    s.accounts.token_b_token_program = address(TOKEN_PROGRAM);
    s.accounts.token_b_mint.token_program = address(TOKEN_PROGRAM);
    assert_refused(&mut s, InitError::UnknownOrDisabledCollateral);
    assert!(s.slot.iter().all(|b| *b == 0));
}

#[test]
fn collateral_ids_follow_the_registry() {
    let mut s = setup();
    s.registry.infos[0].mint = address(50);
    s.registry.infos[1].mint = address(51);
    s.registry.infos[200].mint = address(MINT_A);
    s.registry.infos[255].mint = address(MINT_B);
    s.registry.infos[201].mint = address(MINT_A);
    s.registry.infos[201].disabled = 1;
    let record = run(&mut s).expect("every check passes").strategy;
    assert_eq!(record.token_a_collateral_id, 200);
    assert_eq!(record.token_b_collateral_id, 255);
    assert_eq!(s.registry.collateral_id(&address(MINT_A)), Some(200));
    assert_eq!(s.registry.collateral_id(&address(50)), Some(0));
    assert_eq!(s.registry.collateral_id(&address(52)), None);
    assert_eq!(s.registry.collateral_id(&Address::zeroed()), None);
    s.registry.infos[200].disabled = 1;
    assert_eq!(s.registry.collateral_id(&address(MINT_A)), None);
}

#[test]
fn same_mint_twice_is_accepted_with_one_id() {
    let mut s = setup();
    s.accounts.token_b_mint = s.accounts.token_a_mint;
    s.accounts.token_b_token_program = s.accounts.token_a_token_program;
    let derived = derive_all(&address(STRATEGY), &address(MINT_A), &address(MINT_A), &address(PROGRAM));
    s.accounts.shares_mint = derived.shares_mint.expect("a bump exists").address;
    let record = run(&mut s).expect("every check passes").strategy;
    assert_eq!(record.token_a_collateral_id, 0);
    assert_eq!(record.token_b_collateral_id, 0);
}

#[test]
fn wrong_vault_address_is_refused() {
    let mut s = setup();
    s.accounts.token_a_vault = address(33);
    assert_refused(&mut s, InitError::AddressMismatch);
    let mut s = setup();
    let b = s.accounts.token_b_vault;
    s.accounts.token_b_vault = s.accounts.token_a_vault;
    s.accounts.token_a_vault = b;
    assert_refused(&mut s, InitError::AddressMismatch);
    let mut s = setup();
    s.accounts.shares_mint.bytes[0] ^= 1;
    assert_refused(&mut s, InitError::AddressMismatch);
    let mut s = setup();
    s.accounts.program_id = address(101);
    assert_refused(&mut s, InitError::AddressMismatch);
    let mut s = setup();
    s.accounts.strategy = address(70);
    assert_refused(&mut s, InitError::AddressMismatch);
}

#[test]
fn registry_mismatch_is_refused_and_leaves_the_slot_blank() {
    let mut s = setup();
    s.policy.token_infos = address(44);
    assert_refused(&mut s, InitError::RegistryMismatch);
    assert!(s.slot.iter().all(|b| *b == 0));
    assert_eq!(s.slot.len(), STRATEGY_ACCOUNT_LEN);
    assert_eq!(WhirlpoolStrategy::decode(&s.slot), Err(CodecError::LayoutMismatch));
}

#[test]
fn token_program_mismatch_is_refused() {
    let mut s = setup();
    s.accounts.token_a_token_program = address(TOKEN_2022);
    assert_refused(&mut s, InitError::TokenProgramMismatch);
    let mut s = setup();
    s.accounts.token_b_mint.token_program = address(TOKEN_PROGRAM);
    assert_refused(&mut s, InitError::TokenProgramMismatch);
}

#[test]
fn caller_must_sign_and_be_an_authority() {
    let mut s = setup();
    s.accounts.admin_is_signer = false;
    assert_refused(&mut s, InitError::Unauthorized);
    let mut s = setup();
    s.accounts.admin_authority = address(ACTIONS);
    assert_refused(&mut s, InitError::Unauthorized);
    assert!(!is_authorized(&s.accounts, &s.policy));
    s.accounts.creation_policy = CreationPolicy::AdminOrActions;
    assert!(is_authorized(&s.accounts, &s.policy));
    let record = run(&mut s).expect("the actions authority is accepted").strategy;
    assert_eq!(record.admin_authority, address(ACTIONS));
    let mut s = setup();
    s.accounts.creation_policy = CreationPolicy::AdminOrActions;
    s.accounts.admin_authority = address(90);
    assert_refused(&mut s, InitError::Unauthorized);
    let mut s = setup();
    s.accounts.creation_policy = CreationPolicy::AdminOrActions;
    assert!(run(&mut s).is_ok());
}

#[test]
fn failures_come_in_the_order_of_the_protocol() {
    let mut s = setup();
    s.accounts.admin_is_signer = false;
    s.slot[5] = 1;
    s.policy.token_infos = address(44);
    s.registry.infos[0].disabled = 1;
    s.accounts.token_a_vault = address(33);
    s.accounts.token_a_token_program = address(TOKEN_2022);
    assert_refused(&mut s, InitError::Unauthorized);
    s.accounts.admin_is_signer = true;
    assert_refused(&mut s, InitError::AlreadyInitialized);
    s.slot[5] = 0;
    assert_refused(&mut s, InitError::RegistryMismatch);
    s.policy.token_infos = address(REGISTRY);
    assert_refused(&mut s, InitError::UnknownOrDisabledCollateral);
    s.registry.infos[0].disabled = 0;
    assert_refused(&mut s, InitError::AddressMismatch);
    s.accounts.token_a_vault = setup().accounts.token_a_vault;
    assert_refused(&mut s, InitError::TokenProgramMismatch);
    s.accounts.token_a_token_program = address(TOKEN_PROGRAM);
    assert!(run(&mut s).is_ok());
}

#[test]
fn states_advance_one_check_at_a_time() {
    let s = setup();
    let derived = derive_all(&address(STRATEGY), &address(MINT_A), &address(MINT_B), &address(PROGRAM));
    let step = |state| advance(state, &s.accounts, &s.policy, &s.registry, &s.slot, &derived);
    assert_eq!(step(InitState::Unvalidated), InitState::AuthorityChecked);
    assert_eq!(step(InitState::AuthorityChecked), InitState::RelationshipsChecked);
    assert_eq!(step(InitState::RelationshipsChecked), InitState::VaultsDerived);
    assert_eq!(step(InitState::VaultsDerived), InitState::Committed);
    assert_eq!(step(InitState::Committed), InitState::Committed);
    assert_eq!(
        step(InitState::Failed(InitError::AddressMismatch)),
        InitState::Failed(InitError::AddressMismatch)
    );
    let nothing = Derivations { token_a_vault: None, token_b_vault: None, shares_mint: None };
    assert_eq!(
        advance(InitState::RelationshipsChecked, &s.accounts, &s.policy, &s.registry, &s.slot, &nothing),
        InitState::Failed(InitError::AddressMismatch)
    );
}

#[test]
fn given_derivations_are_used_as_they_are() {
    let mut s = setup();
    let given = Derivations {
        token_a_vault: Some(DerivedAddress { address: address(200), bump: 250 }),
        token_b_vault: Some(DerivedAddress { address: address(201), bump: 251 }),
        shares_mint: Some(DerivedAddress { address: address(202), bump: 252 }),
    };
    let before = s.slot.clone();
    assert_eq!(
        initialize_with_derived(&s.accounts, &s.policy, &s.registry, &mut s.slot, &given),
        Err(InitError::AddressMismatch)
    );
    assert_eq!(s.slot, before);
    s.accounts.token_a_vault = address(200);
    s.accounts.token_b_vault = address(201);
    s.accounts.shares_mint = address(202);
    let created = initialize_with_derived(&s.accounts, &s.policy, &s.registry, &mut s.slot, &given)
        .expect("the supplied addresses are the given ones");
    assert_eq!(created.token_a_vault.bump, 250);
    assert_eq!(created.token_b_vault.bump, 251);
    assert_eq!(created.shares_mint.bump, 252);
    assert_eq!(created.strategy.shares_mint, address(202));
    let missing = Derivations { shares_mint: None, ..given };
    let mut blank = vec![0u8; STRATEGY_ACCOUNT_LEN];
    assert_eq!(
        initialize_with_derived(&s.accounts, &s.policy, &s.registry, &mut blank, &missing),
        Err(InitError::AddressMismatch)
    );
}
