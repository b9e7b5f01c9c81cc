//! Creating a strategy.
//!
//! A caller hands in the identities of the policy record, the registry, two
//! collateral mints and a blank slot for the new strategy record, together with
//! the addresses it expects the vaults and the share mint to have. The protocol
//! checks, in a fixed order, the caller's authority, the relationships between
//! the records, and the derived addresses; only then does it write the record.
//! A failed attempt changes nothing.

use crate::address::Address;
use crate::codec::{
    lemma_account_round_trip, spec_decode_account, spec_encode_account, CodecError, Record,
};
use crate::collateral::CollateralInfos;
use crate::derive::{derive_all, spec_derivations, Derivations, DerivedAddress};
use crate::layout::Layout;
use crate::le::zeros;
use crate::policy::GlobalConfig;
use crate::strategy::WhirlpoolStrategy;
use vstd::prelude::*;

verus! {

/// Decimals of every share mint, whatever the decimals of the two tokens.
pub const SHARES_MINT_DECIMALS: u8 = 6;

/// Number of bytes of a strategy account: discriminator and record.
pub const STRATEGY_ACCOUNT_LEN: usize = 4064;

/// Why an attempt to create a strategy failed.
#[derive(Clone, Copy, Debug, PartialEq, Eq, Structural)]
pub enum InitError {
    /// The caller did not sign, or is not an authority the policy accepts.
    Unauthorized,
    /// The slot is not blank storage of the size of a strategy account.
    AlreadyInitialized,
    /// The registry supplied is not the one the policy record refers to.
    RegistryMismatch,
    /// A mint is missing from the registry, or its entry is disabled.
    UnknownOrDisabledCollateral,
    /// A vault or the share mint is not at its derived address.
    AddressMismatch,
    /// A token program requested for a mint is not the one that owns it.
    TokenProgramMismatch,
}

/// Who may create strategies in a deployment.
#[derive(Clone, Copy, Debug, PartialEq, Eq, Structural)]
pub enum CreationPolicy {
    /// Only the admin authority of the policy record.
    AdminOnly,
    /// The admin authority or the actions authority.
    AdminOrActions,
}

/// What the protocol reads of a collateral mint.
#[derive(Clone, Copy, Debug, PartialEq, Eq)]
pub struct MintInfo {
    pub address: Address,
    pub decimals: u8,
    /// The token program that owns the mint account.
    pub token_program: Address,
}

/// The accounts of one attempt, as plain values.
#[derive(Clone, Copy, Debug, PartialEq, Eq)]
pub struct InitializeStrategy {
    /// The program under which addresses are derived.
    pub program_id: Address,
    pub creation_policy: CreationPolicy,
    /// The caller.
    pub admin_authority: Address,
    /// Whether the caller signed the transaction.
    pub admin_is_signer: bool,
    /// Address of the policy record.
    pub global_config: Address,
    pub pool: Address,
    pub token_a_mint: MintInfo,
    pub token_b_mint: MintInfo,
    pub token_a_vault: Address,
    pub token_b_vault: Address,
    pub base_vault_authority: Address,
    pub shares_mint: Address,
    pub shares_mint_authority: Address,
    /// Address of the registry supplied.
    pub token_infos: Address,
    pub token_a_token_program: Address,
    pub token_b_token_program: Address,
    /// Address of the slot for the new record.
    pub strategy: Address,
}

/// How far an attempt has come.
#[derive(Clone, Copy, Debug, PartialEq, Eq, Structural)]
pub enum InitState {
    Unvalidated,
    AuthorityChecked,
    RelationshipsChecked,
    VaultsDerived,
    Committed,
    Failed(InitError),
}

/// A token vault to be created.
#[derive(Clone, Copy, Debug, PartialEq, Eq)]
pub struct TokenVault {
    pub address: Address,
    pub bump: u8,
    pub mint: Address,
    pub authority: Address,
    pub token_program: Address,
}

/// The share mint to be created.
#[derive(Clone, Copy, Debug, PartialEq, Eq)]
pub struct ShareMint {
    pub address: Address,
    pub bump: u8,
    pub decimals: u8,
    pub authority: Address,
}

/// What a successful attempt produces: the record that was written and the three
/// accounts that belong to it.
#[derive(Clone, Copy, Debug, PartialEq, Eq)]
pub struct Created {
    pub strategy: WhirlpoolStrategy,
    pub token_a_vault: TokenVault,
    pub token_b_vault: TokenVault,
    pub shares_mint: ShareMint,
}

/// The caller signed and is an authority that the creation policy accepts.
pub open spec fn spec_authorized(accounts: InitializeStrategy, global_config: GlobalConfig) -> bool {
    &&& accounts.admin_is_signer
    &&& {
        ||| accounts.admin_authority == global_config.admin_authority
        ||| accounts.creation_policy == CreationPolicy::AdminOrActions
            && accounts.admin_authority == global_config.actions_authority
    }
}

/// The slot is blank storage of the size of a strategy account.
pub open spec fn spec_is_blank(slot: Seq<u8>) -> bool {
    slot == zeros(STRATEGY_ACCOUNT_LEN as nat)
}

/// The first relationship that does not hold, if any.
pub open spec fn spec_relationship_failure(
    accounts: InitializeStrategy,
    global_config: GlobalConfig,
    token_infos: CollateralInfos,
    slot: Seq<u8>,
) -> Option<InitError> {
    if !spec_is_blank(slot) {
        Some(InitError::AlreadyInitialized)
    } else if accounts.token_infos != global_config.token_infos {
        Some(InitError::RegistryMismatch)
    } else if token_infos.spec_collateral_id(accounts.token_a_mint.address) is None
        || token_infos.spec_collateral_id(accounts.token_b_mint.address) is None {
        Some(InitError::UnknownOrDisabledCollateral)
    } else {
        None
    }
}

/// The first check of the supplied addresses and token programs that fails, if any.
pub open spec fn spec_vault_failure(accounts: InitializeStrategy, derived: Derivations) -> Option<
    InitError,
> {
    if !(derived.token_a_vault matches Some(d) && d.address == accounts.token_a_vault)
        || !(derived.token_b_vault matches Some(d) && d.address == accounts.token_b_vault)
        || !(derived.shares_mint matches Some(d) && d.address == accounts.shares_mint) {
        Some(InitError::AddressMismatch)
    } else if accounts.token_a_token_program != accounts.token_a_mint.token_program
        || accounts.token_b_token_program != accounts.token_b_mint.token_program {
        Some(InitError::TokenProgramMismatch)
    } else {
        None
    }
}

/// One transition of the protocol.
pub open spec fn spec_advance(
    state: InitState,
    accounts: InitializeStrategy,
    global_config: GlobalConfig,
    token_infos: CollateralInfos,
    slot: Seq<u8>,
    derived: Derivations,
) -> InitState {
    match state {
        InitState::Unvalidated => if spec_authorized(accounts, global_config) {
            InitState::AuthorityChecked
        } else {
            InitState::Failed(InitError::Unauthorized)
        },
        InitState::AuthorityChecked => match spec_relationship_failure(
            accounts,
            global_config,
            token_infos,
            slot,
        ) {
            Some(e) => InitState::Failed(e),
            None => InitState::RelationshipsChecked,
        },
        InitState::RelationshipsChecked => match spec_vault_failure(accounts, derived) {
            Some(e) => InitState::Failed(e),
            None => InitState::VaultsDerived,
        },
        InitState::VaultsDerived => InitState::Committed,
        InitState::Committed => InitState::Committed,
        InitState::Failed(e) => InitState::Failed(e),
    }
}

/// The state in which an attempt ends.
pub open spec fn spec_final_state(
    accounts: InitializeStrategy,
    global_config: GlobalConfig,
    token_infos: CollateralInfos,
    slot: Seq<u8>,
    derived: Derivations,
) -> InitState {
    let s1 = spec_advance(InitState::Unvalidated, accounts, global_config, token_infos, slot, derived);
    let s2 = spec_advance(s1, accounts, global_config, token_infos, slot, derived);
    let s3 = spec_advance(s2, accounts, global_config, token_infos, slot, derived);
    spec_advance(s3, accounts, global_config, token_infos, slot, derived)
}

/// The record that a successful attempt writes. The authorities are the ones
/// supplied, so no bump belongs to them; every field not named here is zero.
pub open spec fn spec_record(
    accounts: InitializeStrategy,
    token_infos: CollateralInfos,
    derived: Derivations,
) -> WhirlpoolStrategy {
    WhirlpoolStrategy {
        admin_authority: accounts.admin_authority,
        global_config: accounts.global_config,
        base_vault_authority: accounts.base_vault_authority,
        pool: accounts.pool,
        token_a_vault: derived.token_a_vault->Some_0.address,
        token_b_vault: derived.token_b_vault->Some_0.address,
        token_a_mint: accounts.token_a_mint.address,
        token_b_mint: accounts.token_b_mint.address,
        token_a_mint_decimals: accounts.token_a_mint.decimals as u64,
        token_b_mint_decimals: accounts.token_b_mint.decimals as u64,
        token_a_collateral_id: token_infos.spec_collateral_id(
            accounts.token_a_mint.address,
        )->Some_0,
        token_b_collateral_id: token_infos.spec_collateral_id(
            accounts.token_b_mint.address,
        )->Some_0,
        shares_mint: derived.shares_mint->Some_0.address,
        shares_mint_decimals: SHARES_MINT_DECIMALS as u64,
        shares_mint_authority: accounts.shares_mint_authority,
        token_a_token_program: accounts.token_a_token_program,
        token_b_token_program: accounts.token_b_token_program,
        ..WhirlpoolStrategy::spec_zeroed()
    }
}

/// What a successful attempt produces.
pub open spec fn spec_created(
    accounts: InitializeStrategy,
    token_infos: CollateralInfos,
    derived: Derivations,
) -> Created {
    Created {
        strategy: spec_record(accounts, token_infos, derived),
        token_a_vault: TokenVault {
            address: derived.token_a_vault->Some_0.address,
            bump: derived.token_a_vault->Some_0.bump,
            mint: accounts.token_a_mint.address,
            authority: accounts.base_vault_authority,
            token_program: accounts.token_a_token_program,
        },
        token_b_vault: TokenVault {
            address: derived.token_b_vault->Some_0.address,
            bump: derived.token_b_vault->Some_0.bump,
            mint: accounts.token_b_mint.address,
            authority: accounts.base_vault_authority,
            token_program: accounts.token_b_token_program,
        },
        shares_mint: ShareMint {
            address: derived.shares_mint->Some_0.address,
            bump: derived.shares_mint->Some_0.bump,
            decimals: SHARES_MINT_DECIMALS,
            authority: accounts.shares_mint_authority,
        },
    }
}

/// The result of an attempt: what is created if every check passes, or else the
/// first failure in the protocol's order.
pub open spec fn spec_outcome(
    accounts: InitializeStrategy,
    global_config: GlobalConfig,
    token_infos: CollateralInfos,
    slot: Seq<u8>,
    derived: Derivations,
) -> Result<Created, InitError> {
    match spec_final_state(accounts, global_config, token_infos, slot, derived) {
        InitState::Failed(e) => Err(e),
        _ => Ok(spec_created(accounts, token_infos, derived)),
    }
}

/// Whether the caller may create a strategy.
pub fn is_authorized(accounts: &InitializeStrategy, global_config: &GlobalConfig) -> (b: bool)
    ensures
        b == spec_authorized(*accounts, *global_config),
{
    accounts.admin_is_signer && (accounts.admin_authority == global_config.admin_authority || (
    accounts.creation_policy == CreationPolicy::AdminOrActions && accounts.admin_authority
        == global_config.actions_authority))
}

/// Whether the slot is blank storage of the size of a strategy account.
pub fn is_blank(slot: &[u8]) -> (b: bool)
    ensures
        b == spec_is_blank(slot@),
{
    if slot.len() != STRATEGY_ACCOUNT_LEN {
        return false;
    }
    let mut i: usize = 0;
    while i < STRATEGY_ACCOUNT_LEN
        invariant
            i <= STRATEGY_ACCOUNT_LEN,
            slot@.len() == STRATEGY_ACCOUNT_LEN,
            forall|j: int| 0 <= j < i ==> slot@[j] == 0u8,
        decreases STRATEGY_ACCOUNT_LEN - i,
    {
        if slot[i] != 0 {
            assert(slot@[i as int] != zeros(STRATEGY_ACCOUNT_LEN as nat)[i as int]);
            return false;
        }
        i += 1;
    }
    assert(slot@ =~= zeros(STRATEGY_ACCOUNT_LEN as nat));
    true
}

/// Checks the slot, the registry reference and the two mints.
pub fn relationship_failure(
    accounts: &InitializeStrategy,
    global_config: &GlobalConfig,
    token_infos: &CollateralInfos,
    slot: &[u8],
) -> (r: Option<InitError>)
    ensures
        r == spec_relationship_failure(*accounts, *global_config, *token_infos, slot@),
{
    if !is_blank(slot) {
        Some(InitError::AlreadyInitialized)
    } else if accounts.token_infos != global_config.token_infos {
        Some(InitError::RegistryMismatch)
    } else if token_infos.collateral_id(&accounts.token_a_mint.address).is_none()
        || token_infos.collateral_id(&accounts.token_b_mint.address).is_none() {
        Some(InitError::UnknownOrDisabledCollateral)
    } else {
        None
    }
}

/// Whether `derived` is an address and `supplied` is that address.
fn is_derived(derived: &Option<DerivedAddress>, supplied: &Address) -> (b: bool)
    ensures
        b == (*derived matches Some(d) && d.address == *supplied),
{
    match derived {
        Some(d) => d.address == *supplied,
        None => false,
    }
}

/// Checks the supplied addresses against the derived ones, then the token programs.
pub fn vault_failure(accounts: &InitializeStrategy, derived: &Derivations) -> (r: Option<
    InitError,
>)
    ensures
        r == spec_vault_failure(*accounts, *derived),
{
    if !is_derived(&derived.token_a_vault, &accounts.token_a_vault) || !is_derived(
        &derived.token_b_vault,
        &accounts.token_b_vault,
    ) || !is_derived(&derived.shares_mint, &accounts.shares_mint) {
        Some(InitError::AddressMismatch)
    } else if accounts.token_a_token_program != accounts.token_a_mint.token_program
        || accounts.token_b_token_program != accounts.token_b_mint.token_program {
        Some(InitError::TokenProgramMismatch)
    } else {
        None
    }
}

/// The vault and share-mint addresses stored in `record` are the derived ones.
pub open spec fn spec_addresses_match(record: WhirlpoolStrategy, derived: Derivations) -> bool {
    &&& derived.token_a_vault matches Some(d) && d.address == record.token_a_vault
    &&& derived.token_b_vault matches Some(d) && d.address == record.token_b_vault
    &&& derived.shares_mint matches Some(d) && d.address == record.shares_mint
}

/// Whether the addresses stored in `record` are the given derived ones.
pub fn addresses_match_derived(record: &WhirlpoolStrategy, derived: &Derivations) -> (b: bool)
    ensures
        b == spec_addresses_match(*record, *derived),
{
    is_derived(&derived.token_a_vault, &record.token_a_vault) && is_derived(
        &derived.token_b_vault,
        &record.token_b_vault,
    ) && is_derived(&derived.shares_mint, &record.shares_mint)
}

/// Whether the addresses stored in the record at `strategy` are the ones that
/// belong to a strategy at that address with the record's mints. Anyone who knows
/// where a record lives can make this check.
pub fn addresses_match(record: &WhirlpoolStrategy, strategy: &Address, program_id: &Address) -> (b:
    bool)
    ensures
        b == spec_addresses_match(
            *record,
            spec_derivations(*strategy, record.token_a_mint, record.token_b_mint, *program_id),
        ),
{
    let derived = derive_all(strategy, &record.token_a_mint, &record.token_b_mint, program_id);
    addresses_match_derived(record, &derived)
}

/// Makes one transition of the protocol.
pub fn advance(
    state: InitState,
    accounts: &InitializeStrategy,
    global_config: &GlobalConfig,
    token_infos: &CollateralInfos,
    slot: &[u8],
    derived: &Derivations,
) -> (next: InitState)
    ensures
        next == spec_advance(state, *accounts, *global_config, *token_infos, slot@, *derived),
{
    match state {
        InitState::Unvalidated => if is_authorized(accounts, global_config) {
            InitState::AuthorityChecked
        } else {
            InitState::Failed(InitError::Unauthorized)
        },
        InitState::AuthorityChecked => match relationship_failure(
            accounts,
            global_config,
            token_infos,
            slot,
        ) {
            Some(e) => InitState::Failed(e),
            None => InitState::RelationshipsChecked,
        },
        InitState::RelationshipsChecked => match vault_failure(accounts, derived) {
            Some(e) => InitState::Failed(e),
            None => InitState::VaultsDerived,
        },
        InitState::VaultsDerived => InitState::Committed,
        InitState::Committed => InitState::Committed,
        InitState::Failed(e) => InitState::Failed(e),
    }
}

/// Builds what a successful attempt produces.
pub fn created(
    accounts: &InitializeStrategy,
    token_a_collateral_id: u64,
    token_b_collateral_id: u64,
    vault_a: DerivedAddress,
    vault_b: DerivedAddress,
    shares: DerivedAddress,
) -> (r: Created)
    ensures
        r.strategy == (WhirlpoolStrategy {
            admin_authority: accounts.admin_authority,
            global_config: accounts.global_config,
            base_vault_authority: accounts.base_vault_authority,
            pool: accounts.pool,
            token_a_vault: vault_a.address,
            token_b_vault: vault_b.address,
            token_a_mint: accounts.token_a_mint.address,
            token_b_mint: accounts.token_b_mint.address,
            token_a_mint_decimals: accounts.token_a_mint.decimals as u64,
            token_b_mint_decimals: accounts.token_b_mint.decimals as u64,
            token_a_collateral_id,
            token_b_collateral_id,
            shares_mint: shares.address,
            shares_mint_decimals: SHARES_MINT_DECIMALS as u64,
            shares_mint_authority: accounts.shares_mint_authority,
            token_a_token_program: accounts.token_a_token_program,
            token_b_token_program: accounts.token_b_token_program,
            ..WhirlpoolStrategy::spec_zeroed()
        }),
        r.token_a_vault == (TokenVault {
            address: vault_a.address,
            bump: vault_a.bump,
            mint: accounts.token_a_mint.address,
            authority: accounts.base_vault_authority,
            token_program: accounts.token_a_token_program,
        }),
        r.token_b_vault == (TokenVault {
            address: vault_b.address,
            bump: vault_b.bump,
            mint: accounts.token_b_mint.address,
            authority: accounts.base_vault_authority,
            token_program: accounts.token_b_token_program,
        }),
        r.shares_mint == (ShareMint {
            address: shares.address,
            bump: shares.bump,
            decimals: SHARES_MINT_DECIMALS,
            authority: accounts.shares_mint_authority,
        }),
{
    let mut strategy = WhirlpoolStrategy::zeroed();
    strategy.admin_authority = accounts.admin_authority;
    strategy.global_config = accounts.global_config;
    strategy.base_vault_authority = accounts.base_vault_authority;
    strategy.pool = accounts.pool;
    strategy.token_a_vault = vault_a.address;
    strategy.token_b_vault = vault_b.address;
    strategy.token_a_mint = accounts.token_a_mint.address;
    strategy.token_b_mint = accounts.token_b_mint.address;
    strategy.token_a_mint_decimals = accounts.token_a_mint.decimals as u64;
    strategy.token_b_mint_decimals = accounts.token_b_mint.decimals as u64;
    strategy.token_a_collateral_id = token_a_collateral_id;
    strategy.token_b_collateral_id = token_b_collateral_id;
    strategy.shares_mint = shares.address;
    strategy.shares_mint_decimals = SHARES_MINT_DECIMALS as u64;
    strategy.shares_mint_authority = accounts.shares_mint_authority;
    strategy.token_a_token_program = accounts.token_a_token_program;
    strategy.token_b_token_program = accounts.token_b_token_program;
    Created {
        strategy,
        token_a_vault: TokenVault {
            address: vault_a.address,
            bump: vault_a.bump,
            mint: accounts.token_a_mint.address,
            authority: accounts.base_vault_authority,
            token_program: accounts.token_a_token_program,
        },
        token_b_vault: TokenVault {
            address: vault_b.address,
            bump: vault_b.bump,
            mint: accounts.token_b_mint.address,
            authority: accounts.base_vault_authority,
            token_program: accounts.token_b_token_program,
        },
        shares_mint: ShareMint {
            address: shares.address,
            bump: shares.bump,
            decimals: SHARES_MINT_DECIMALS,
            authority: accounts.shares_mint_authority,
        },
    }
}

/// Writes `record` into a slot of the size of a strategy account: the record
/// first, the discriminator last, so that the slot holds no readable record
/// until every byte of it is in place.
fn write_record(slot: &mut Vec<u8>, record: &WhirlpoolStrategy)
    requires
        old(slot)@.len() == STRATEGY_ACCOUNT_LEN,
    ensures
        final(slot)@ == spec_encode_account(*record),
{
    let bytes = record.encode();
    proof {
        WhirlpoolStrategy::lemma_discriminator();
        record.lemma_encode_len();
    }
    let mut i: usize = 8;
    while i < STRATEGY_ACCOUNT_LEN
        invariant
            8 <= i <= STRATEGY_ACCOUNT_LEN,
            slot@.len() == STRATEGY_ACCOUNT_LEN,
            bytes@.len() == STRATEGY_ACCOUNT_LEN,
            slot@.subrange(0, 8) == old(slot)@.subrange(0, 8),
            forall|j: int| 8 <= j < i ==> slot@[j] == bytes@[j],
        decreases STRATEGY_ACCOUNT_LEN - i,
    {
        let ghost before = slot@;
        slot.set(i, bytes[i]);
        assert(slot@.subrange(0, 8) =~= before.subrange(0, 8));
        i += 1;
    }
    let mut k: usize = 0;
    while k < 8
        invariant
            k <= 8,
            slot@.len() == STRATEGY_ACCOUNT_LEN,
            bytes@.len() == STRATEGY_ACCOUNT_LEN,
            forall|j: int| 8 <= j < STRATEGY_ACCOUNT_LEN ==> slot@[j] == bytes@[j],
            forall|j: int| 0 <= j < k ==> slot@[j] == bytes@[j],
        decreases 8 - k,
    {
        slot.set(k, bytes[k]);
        k += 1;
    }
    assert(slot@ =~= bytes@);
}

/// Runs the protocol on addresses that were already derived.
pub fn initialize_with_derived(
    accounts: &InitializeStrategy,
    global_config: &GlobalConfig,
    token_infos: &CollateralInfos,
    slot: &mut Vec<u8>,
    derived: &Derivations,
) -> (res: Result<Created, InitError>)
    ensures
        res == spec_outcome(*accounts, *global_config, *token_infos, old(slot)@, *derived),
        res matches Ok(c) ==> final(slot)@ == spec_encode_account(c.strategy),
        res is Err ==> final(slot)@ == old(slot)@,
{
    let s1 = advance(
        InitState::Unvalidated,
        accounts,
        global_config,
        token_infos,
        slot.as_slice(),
        derived,
    );
    let s2 = advance(s1, accounts, global_config, token_infos, slot.as_slice(), derived);
    let s3 = advance(s2, accounts, global_config, token_infos, slot.as_slice(), derived);
    match s3 {
        InitState::Failed(e) => Err(e),
        _ => {
            let id_a = token_infos.collateral_id(&accounts.token_a_mint.address);
            let id_b = token_infos.collateral_id(&accounts.token_b_mint.address);
            match (id_a, id_b, derived.token_a_vault, derived.token_b_vault, derived.shares_mint) {
                (Some(a), Some(b), Some(va), Some(vb), Some(sh)) => {
                    let c = created(accounts, a, b, va, vb, sh);
                    write_record(slot, &c.strategy);
                    Ok(c)
                },
                _ => unreached(),
            }
        },
    }
}

/// Creates a strategy: derives the addresses that belong to the slot, checks the
/// attempt and, if every check passes, writes the record. The three payload words
/// of the instruction are not interpreted.
pub fn initialize_strategy(
    accounts: &InitializeStrategy,
    global_config: &GlobalConfig,
    token_infos: &CollateralInfos,
    slot: &mut Vec<u8>,
    _a: u64,
    _b: u64,
    _c: u64,
) -> (res: Result<Created, InitError>)
    ensures
        res == spec_outcome(
            *accounts,
            *global_config,
            *token_infos,
            old(slot)@,
            spec_derivations(
                accounts.strategy,
                accounts.token_a_mint.address,
                accounts.token_b_mint.address,
                accounts.program_id,
            ),
        ),
        res matches Ok(c) ==> final(slot)@ == spec_encode_account(c.strategy),
        res is Err ==> final(slot)@ == old(slot)@,
{
    let derived = derive_all(
        &accounts.strategy,
        &accounts.token_a_mint.address,
        &accounts.token_b_mint.address,
        &accounts.program_id,
    );
    initialize_with_derived(accounts, global_config, token_infos, slot, &derived)
}

/// The bytes of an account that holds a record are not blank.
pub proof fn lemma_record_is_not_blank(record: WhirlpoolStrategy)
    ensures
        !spec_is_blank(spec_encode_account(record)),
{
    WhirlpoolStrategy::lemma_discriminator();
    let bytes = spec_encode_account(record);
    if spec_is_blank(bytes) {
        assert(bytes.subrange(0, 8) =~= WhirlpoolStrategy::spec_discriminator());
        assert(bytes.subrange(0, 8) =~= zeros(8));
    }
}

/// Deriving the vault and share-mint addresses again, from the address of the slot
/// and the mints stored in the committed record, gives the addresses stored in
/// that record.
pub proof fn lemma_addresses_rederive(
    accounts: InitializeStrategy,
    global_config: GlobalConfig,
    token_infos: CollateralInfos,
    slot: Seq<u8>,
    created: Created,
)
    requires
        spec_outcome(
            accounts,
            global_config,
            token_infos,
            slot,
            spec_derivations(
                accounts.strategy,
                accounts.token_a_mint.address,
                accounts.token_b_mint.address,
                accounts.program_id,
            ),
        ) == Ok::<Created, InitError>(created),
    ensures
        spec_addresses_match(
            created.strategy,
            spec_derivations(
                accounts.strategy,
                created.strategy.token_a_mint,
                created.strategy.token_b_mint,
                accounts.program_id,
            ),
        ),
        created.strategy.global_config == accounts.global_config,
{
}

/// A slot that holds a committed record cannot be initialized again: whoever is
/// allowed to try is told `AlreadyInitialized`.
pub proof fn lemma_no_second_initialization(
    committed: WhirlpoolStrategy,
    accounts: InitializeStrategy,
    global_config: GlobalConfig,
    token_infos: CollateralInfos,
    derived: Derivations,
)
    requires
        spec_authorized(accounts, global_config),
    ensures
        spec_outcome(
            accounts,
            global_config,
            token_infos,
            spec_encode_account(committed),
            derived,
        ) == Err::<Created, InitError>(InitError::AlreadyInitialized),
{
    lemma_record_is_not_blank(committed);
}

/// With a blank slot and the right registry, a mint whose entries in the registry
/// are all disabled, or that has none, is refused.
pub proof fn lemma_disabled_collateral_is_refused(
    accounts: InitializeStrategy,
    global_config: GlobalConfig,
    token_infos: CollateralInfos,
    slot: Seq<u8>,
    derived: Derivations,
    mint: Address,
)
    requires
        spec_authorized(accounts, global_config),
        spec_is_blank(slot),
        accounts.token_infos == global_config.token_infos,
        mint == accounts.token_a_mint.address || mint == accounts.token_b_mint.address,
        forall|j: int|
            0 <= j < 256 && (#[trigger] token_infos.infos[j]).mint == mint
                ==> token_infos.infos[j].disabled != 0,
    ensures
        spec_outcome(accounts, global_config, token_infos, slot, derived) == Err::<
            Created,
            InitError,
        >(InitError::UnknownOrDisabledCollateral),
{
    token_infos.lemma_collateral_id(mint);
}

/// Once authority and relationships are in order, a supplied vault or share-mint
/// address that is not the derived one is refused.
pub proof fn lemma_wrong_address_is_refused(
    accounts: InitializeStrategy,
    global_config: GlobalConfig,
    token_infos: CollateralInfos,
    slot: Seq<u8>,
    derived: Derivations,
)
    requires
        spec_authorized(accounts, global_config),
        spec_relationship_failure(accounts, global_config, token_infos, slot) is None,
        ({
            ||| derived.token_a_vault matches Some(d) && d.address != accounts.token_a_vault
            ||| derived.token_b_vault matches Some(d) && d.address != accounts.token_b_vault
            ||| derived.shares_mint matches Some(d) && d.address != accounts.shares_mint
        }),
    ensures
        spec_outcome(accounts, global_config, token_infos, slot, derived) == Err::<
            Created,
            InitError,
        >(InitError::AddressMismatch),
{
}

/// The record that a successful attempt writes can be read back from the slot.
pub proof fn lemma_committed_record_reads_back(
    accounts: InitializeStrategy,
    global_config: GlobalConfig,
    token_infos: CollateralInfos,
    slot: Seq<u8>,
    derived: Derivations,
    created: Created,
)
    requires
        spec_outcome(accounts, global_config, token_infos, slot, derived) == Ok::<
            Created,
            InitError,
        >(created),
    ensures
        created.strategy.padding_is_zero(),
        spec_decode_account::<WhirlpoolStrategy>(spec_encode_account(created.strategy)) == Ok::<
            WhirlpoolStrategy,
            CodecError,
        >(created.strategy),
{
    WhirlpoolStrategy::lemma_zeroed_padding();
    lemma_account_round_trip(created.strategy);
}

} // verus!
