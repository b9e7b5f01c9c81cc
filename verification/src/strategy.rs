//! The strategy record.

use crate::address::Address;
use crate::arrays::lemma_zeroed_elements;
use crate::codec::{
    decode_account, encode_account, filled_with, is_zero_u128, is_zero_u8, spec_decode_account,
    spec_encode_account, CodecError, Record,
};
use crate::layout::{lemma_window, Layout};
use crate::le::zeros;
use crate::parts::{KaminoRewardInfo, Price, RebalanceRaw, WithdrawalCaps};
use vstd::prelude::*;

verus! {

/// The state of one strategy.
#[derive(Clone, Copy, Debug, PartialEq, Eq)]
pub struct WhirlpoolStrategy {
    pub admin_authority: Address,
    pub global_config: Address,
    pub base_vault_authority: Address,
    pub base_vault_authority_bump: u64,
    pub pool: Address,
    pub pool_token_vault_a: Address,
    pub pool_token_vault_b: Address,
    pub tick_array_lower: Address,
    pub tick_array_upper: Address,
    pub position: Address,
    pub position_mint: Address,
    pub position_metadata: Address,
    pub position_token_account: Address,
    pub token_a_vault: Address,
    pub token_b_vault: Address,
    pub deprecated_0: [Address; 2],
    pub deprecated_1: [u64; 2],
    pub token_a_mint: Address,
    pub token_b_mint: Address,
    pub token_a_mint_decimals: u64,
    pub token_b_mint_decimals: u64,
    pub token_a_amounts: u64,
    pub token_b_amounts: u64,
    pub token_a_collateral_id: u64,
    pub token_b_collateral_id: u64,
    pub scope_prices: Address,
    pub deprecated_2: Address,
    pub shares_mint: Address,
    pub shares_mint_decimals: u64,
    pub shares_mint_authority: Address,
    pub shares_mint_authority_bump: u64,
    pub shares_issued: u64,
    pub status: u64,
    pub reward_0_amount: u64,
    pub reward_0_vault: Address,
    pub reward_0_collateral_id: u64,
    pub reward_0_decimals: u64,
    pub reward_1_amount: u64,
    pub reward_1_vault: Address,
    pub reward_1_collateral_id: u64,
    pub reward_1_decimals: u64,
    pub reward_2_amount: u64,
    pub reward_2_vault: Address,
    pub reward_2_collateral_id: u64,
    pub reward_2_decimals: u64,
    pub deposit_cap_usd: u64,
    pub fees_a_cumulative: u64,
    pub fees_b_cumulative: u64,
    pub reward_0_amount_cumulative: u64,
    pub reward_1_amount_cumulative: u64,
    pub reward_2_amount_cumulative: u64,
    pub deposit_cap_usd_per_ixn: u64,
    pub withdrawal_cap_a: WithdrawalCaps,
    pub withdrawal_cap_b: WithdrawalCaps,
    pub max_price_deviation_bps: u64,
    pub swap_vault_max_slippage_bps: u32,
    pub swap_vault_max_slippage_from_reference_bps: u32,
    pub strategy_type: u64,
    pub padding_0: u64,
    pub withdraw_fee: u64,
    pub fees_fee: u64,
    pub reward_0_fee: u64,
    pub reward_1_fee: u64,
    pub reward_2_fee: u64,
    pub position_timestamp: u64,
    pub kamino_rewards: [KaminoRewardInfo; 3],
    pub strategy_dex: u64,
    pub raydium_protocol_position_or_base_vault_authority: Address,
    pub allow_deposit_without_invest: u64,
    pub raydium_pool_config_or_base_vault_authority: Address,
    pub deposit_blocked: u8,
    pub creation_status: u8,
    pub invest_blocked: u8,
    pub share_calculation_method: u8,
    pub withdraw_blocked: u8,
    pub reserved_flag_2: u8,
    pub local_admin_blocked: u8,
    pub flash_vault_swap_allowed: u8,
    pub reference_swap_price_a: Price,
    pub reference_swap_price_b: Price,
    pub is_community: u8,
    pub rebalance_type: u8,
    pub padding_1: [u8; 6],
    pub rebalance_raw: RebalanceRaw,
    pub padding_2: [u8; 7],
    pub token_a_fees_from_rewards_cumulative: u64,
    pub token_b_fees_from_rewards_cumulative: u64,
    pub strategy_lookup_table: Address,
    pub last_swap_uneven_step_timestamp: u64,
    pub farm: Address,
    pub rebalances_cap: WithdrawalCaps,
    pub swap_uneven_authority: Address,
    pub token_a_token_program: Address,
    pub token_b_token_program: Address,
    pub pending_admin: Address,
    pub padding_3: u64,
    pub padding_4: [u128; 13],
    pub padding_5: [u128; 32],
    pub padding_6: [u128; 32],
    pub padding_7: [u128; 32],
}

impl WhirlpoolStrategy {
    /// Authorities and the identities of the external position.
    pub open spec fn spec_encode_identity(&self) -> Seq<u8> {
        self.admin_authority.spec_encode()
            + self.global_config.spec_encode()
            + self.base_vault_authority.spec_encode()
            + self.base_vault_authority_bump.spec_encode()
            + self.pool.spec_encode()
            + self.pool_token_vault_a.spec_encode()
            + self.pool_token_vault_b.spec_encode()
            + self.tick_array_lower.spec_encode()
            + self.tick_array_upper.spec_encode()
            + self.position.spec_encode()
            + self.position_mint.spec_encode()
            + self.position_metadata.spec_encode()
            + self.position_token_account.spec_encode()
    }

    /// The two token vaults with their mints, amounts and collateral ids.
    pub open spec fn spec_encode_tokens(&self) -> Seq<u8> {
        self.token_a_vault.spec_encode()
            + self.token_b_vault.spec_encode()
            + self.deprecated_0.spec_encode()
            + self.deprecated_1.spec_encode()
            + self.token_a_mint.spec_encode()
            + self.token_b_mint.spec_encode()
            + self.token_a_mint_decimals.spec_encode()
            + self.token_b_mint_decimals.spec_encode()
            + self.token_a_amounts.spec_encode()
            + self.token_b_amounts.spec_encode()
            + self.token_a_collateral_id.spec_encode()
            + self.token_b_collateral_id.spec_encode()
    }

    /// The price feed and the share mint.
    pub open spec fn spec_encode_shares(&self) -> Seq<u8> {
        self.scope_prices.spec_encode()
            + self.deprecated_2.spec_encode()
            + self.shares_mint.spec_encode()
            + self.shares_mint_decimals.spec_encode()
            + self.shares_mint_authority.spec_encode()
            + self.shares_mint_authority_bump.spec_encode()
            + self.shares_issued.spec_encode()
            + self.status.spec_encode()
    }

    /// The three legacy reward slots.
    pub open spec fn spec_encode_rewards(&self) -> Seq<u8> {
        self.reward_0_amount.spec_encode()
            + self.reward_0_vault.spec_encode()
            + self.reward_0_collateral_id.spec_encode()
            + self.reward_0_decimals.spec_encode()
            + self.reward_1_amount.spec_encode()
            + self.reward_1_vault.spec_encode()
            + self.reward_1_collateral_id.spec_encode()
            + self.reward_1_decimals.spec_encode()
            + self.reward_2_amount.spec_encode()
            + self.reward_2_vault.spec_encode()
            + self.reward_2_collateral_id.spec_encode()
            + self.reward_2_decimals.spec_encode()
    }

    /// Deposit caps, cumulative counters and the withdrawal caps.
    pub open spec fn spec_encode_accounting(&self) -> Seq<u8> {
        self.deposit_cap_usd.spec_encode()
            + self.fees_a_cumulative.spec_encode()
            + self.fees_b_cumulative.spec_encode()
            + self.reward_0_amount_cumulative.spec_encode()
            + self.reward_1_amount_cumulative.spec_encode()
            + self.reward_2_amount_cumulative.spec_encode()
            + self.deposit_cap_usd_per_ixn.spec_encode()
            + self.withdrawal_cap_a.spec_encode()
            + self.withdrawal_cap_b.spec_encode()
    }

    /// Deviation and slippage limits and the fee rates.
    pub open spec fn spec_encode_fees(&self) -> Seq<u8> {
        self.max_price_deviation_bps.spec_encode()
            + self.swap_vault_max_slippage_bps.spec_encode()
            + self.swap_vault_max_slippage_from_reference_bps.spec_encode()
            + self.strategy_type.spec_encode()
            + self.padding_0.spec_encode()
            + self.withdraw_fee.spec_encode()
            + self.fees_fee.spec_encode()
            + self.reward_0_fee.spec_encode()
            + self.reward_1_fee.spec_encode()
            + self.reward_2_fee.spec_encode()
            + self.position_timestamp.spec_encode()
    }

    /// The reward streams and the exchange-specific identities.
    pub open spec fn spec_encode_streams(&self) -> Seq<u8> {
        self.kamino_rewards.spec_encode()
            + self.strategy_dex.spec_encode()
            + self.raydium_protocol_position_or_base_vault_authority.spec_encode()
            + self.allow_deposit_without_invest.spec_encode()
            + self.raydium_pool_config_or_base_vault_authority.spec_encode()
    }

    /// The blocking flags, reference prices and rebalance state.
    pub open spec fn spec_encode_flags(&self) -> Seq<u8> {
        self.deposit_blocked.spec_encode()
            + self.creation_status.spec_encode()
            + self.invest_blocked.spec_encode()
            + self.share_calculation_method.spec_encode()
            + self.withdraw_blocked.spec_encode()
            + self.reserved_flag_2.spec_encode()
            + self.local_admin_blocked.spec_encode()
            + self.flash_vault_swap_allowed.spec_encode()
            + self.reference_swap_price_a.spec_encode()
            + self.reference_swap_price_b.spec_encode()
            + self.is_community.spec_encode()
            + self.rebalance_type.spec_encode()
            + self.padding_1.spec_encode()
            + self.rebalance_raw.spec_encode()
            + self.padding_2.spec_encode()
    }

    /// Late additions: lookup table, farm, token programs, pending admin.
    pub open spec fn spec_encode_wiring(&self) -> Seq<u8> {
        self.token_a_fees_from_rewards_cumulative.spec_encode()
            + self.token_b_fees_from_rewards_cumulative.spec_encode()
            + self.strategy_lookup_table.spec_encode()
            + self.last_swap_uneven_step_timestamp.spec_encode()
            + self.farm.spec_encode()
            + self.rebalances_cap.spec_encode()
            + self.swap_uneven_authority.spec_encode()
            + self.token_a_token_program.spec_encode()
            + self.token_b_token_program.spec_encode()
            + self.pending_admin.spec_encode()
    }

    /// Space reserved for later layout versions.
    pub open spec fn spec_encode_reserved(&self) -> Seq<u8> {
        self.padding_3.spec_encode()
            + self.padding_4.spec_encode()
            + self.padding_5.spec_encode()
            + self.padding_6.spec_encode()
            + self.padding_7.spec_encode()
    }

    fn encode_identity_into(&self, out: &mut Vec<u8>)
        ensures
            final(out)@ == old(out)@ + self.spec_encode_identity(),
    {
        self.admin_authority.encode_into(out);
        self.global_config.encode_into(out);
        self.base_vault_authority.encode_into(out);
        self.base_vault_authority_bump.encode_into(out);
        self.pool.encode_into(out);
        self.pool_token_vault_a.encode_into(out);
        self.pool_token_vault_b.encode_into(out);
        self.tick_array_lower.encode_into(out);
        self.tick_array_upper.encode_into(out);
        self.position.encode_into(out);
        self.position_mint.encode_into(out);
        self.position_metadata.encode_into(out);
        self.position_token_account.encode_into(out);
        assert(out@ =~= old(out)@ + self.spec_encode_identity());
    }

    fn encode_tokens_into(&self, out: &mut Vec<u8>)
        ensures
            final(out)@ == old(out)@ + self.spec_encode_tokens(),
    {
        self.token_a_vault.encode_into(out);
        self.token_b_vault.encode_into(out);
        self.deprecated_0.encode_into(out);
        self.deprecated_1.encode_into(out);
        self.token_a_mint.encode_into(out);
        self.token_b_mint.encode_into(out);
        self.token_a_mint_decimals.encode_into(out);
        self.token_b_mint_decimals.encode_into(out);
        self.token_a_amounts.encode_into(out);
        self.token_b_amounts.encode_into(out);
        self.token_a_collateral_id.encode_into(out);
        self.token_b_collateral_id.encode_into(out);
        assert(out@ =~= old(out)@ + self.spec_encode_tokens());
    }

    fn encode_shares_into(&self, out: &mut Vec<u8>)
        ensures
            final(out)@ == old(out)@ + self.spec_encode_shares(),
    {
        self.scope_prices.encode_into(out);
        self.deprecated_2.encode_into(out);
        self.shares_mint.encode_into(out);
        self.shares_mint_decimals.encode_into(out);
        self.shares_mint_authority.encode_into(out);
        self.shares_mint_authority_bump.encode_into(out);
        self.shares_issued.encode_into(out);
        self.status.encode_into(out);
        assert(out@ =~= old(out)@ + self.spec_encode_shares());
    }

    fn encode_rewards_into(&self, out: &mut Vec<u8>)
        ensures
            final(out)@ == old(out)@ + self.spec_encode_rewards(),
    {
        self.reward_0_amount.encode_into(out);
        self.reward_0_vault.encode_into(out);
        self.reward_0_collateral_id.encode_into(out);
        self.reward_0_decimals.encode_into(out);
        self.reward_1_amount.encode_into(out);
        self.reward_1_vault.encode_into(out);
        self.reward_1_collateral_id.encode_into(out);
        self.reward_1_decimals.encode_into(out);
        self.reward_2_amount.encode_into(out);
        self.reward_2_vault.encode_into(out);
        self.reward_2_collateral_id.encode_into(out);
        self.reward_2_decimals.encode_into(out);
        assert(out@ =~= old(out)@ + self.spec_encode_rewards());
    }

    fn encode_accounting_into(&self, out: &mut Vec<u8>)
        ensures
            final(out)@ == old(out)@ + self.spec_encode_accounting(),
    {
        self.deposit_cap_usd.encode_into(out);
        self.fees_a_cumulative.encode_into(out);
        self.fees_b_cumulative.encode_into(out);
        self.reward_0_amount_cumulative.encode_into(out);
        self.reward_1_amount_cumulative.encode_into(out);
        self.reward_2_amount_cumulative.encode_into(out);
        self.deposit_cap_usd_per_ixn.encode_into(out);
        self.withdrawal_cap_a.encode_into(out);
        self.withdrawal_cap_b.encode_into(out);
        assert(out@ =~= old(out)@ + self.spec_encode_accounting());
    }

    fn encode_fees_into(&self, out: &mut Vec<u8>)
        ensures
            final(out)@ == old(out)@ + self.spec_encode_fees(),
    {
        self.max_price_deviation_bps.encode_into(out);
        self.swap_vault_max_slippage_bps.encode_into(out);
        self.swap_vault_max_slippage_from_reference_bps.encode_into(out);
        self.strategy_type.encode_into(out);
        self.padding_0.encode_into(out);
        self.withdraw_fee.encode_into(out);
        self.fees_fee.encode_into(out);
        self.reward_0_fee.encode_into(out);
        self.reward_1_fee.encode_into(out);
        self.reward_2_fee.encode_into(out);
        self.position_timestamp.encode_into(out);
        assert(out@ =~= old(out)@ + self.spec_encode_fees());
    }

    fn encode_streams_into(&self, out: &mut Vec<u8>)
        ensures
            final(out)@ == old(out)@ + self.spec_encode_streams(),
    {
        self.kamino_rewards.encode_into(out);
        self.strategy_dex.encode_into(out);
        self.raydium_protocol_position_or_base_vault_authority.encode_into(out);
        self.allow_deposit_without_invest.encode_into(out);
        self.raydium_pool_config_or_base_vault_authority.encode_into(out);
        assert(out@ =~= old(out)@ + self.spec_encode_streams());
    }

    fn encode_flags_into(&self, out: &mut Vec<u8>)
        ensures
            final(out)@ == old(out)@ + self.spec_encode_flags(),
    {
        self.deposit_blocked.encode_into(out);
        self.creation_status.encode_into(out);
        self.invest_blocked.encode_into(out);
        self.share_calculation_method.encode_into(out);
        self.withdraw_blocked.encode_into(out);
        self.reserved_flag_2.encode_into(out);
        self.local_admin_blocked.encode_into(out);
        self.flash_vault_swap_allowed.encode_into(out);
        self.reference_swap_price_a.encode_into(out);
        self.reference_swap_price_b.encode_into(out);
        self.is_community.encode_into(out);
        self.rebalance_type.encode_into(out);
        self.padding_1.encode_into(out);
        self.rebalance_raw.encode_into(out);
        self.padding_2.encode_into(out);
        assert(out@ =~= old(out)@ + self.spec_encode_flags());
    }

    fn encode_wiring_into(&self, out: &mut Vec<u8>)
        ensures
            final(out)@ == old(out)@ + self.spec_encode_wiring(),
    {
        self.token_a_fees_from_rewards_cumulative.encode_into(out);
        self.token_b_fees_from_rewards_cumulative.encode_into(out);
        self.strategy_lookup_table.encode_into(out);
        self.last_swap_uneven_step_timestamp.encode_into(out);
        self.farm.encode_into(out);
        self.rebalances_cap.encode_into(out);
        self.swap_uneven_authority.encode_into(out);
        self.token_a_token_program.encode_into(out);
        self.token_b_token_program.encode_into(out);
        self.pending_admin.encode_into(out);
        assert(out@ =~= old(out)@ + self.spec_encode_wiring());
    }

    fn encode_reserved_into(&self, out: &mut Vec<u8>)
        ensures
            final(out)@ == old(out)@ + self.spec_encode_reserved(),
    {
        self.padding_3.encode_into(out);
        self.padding_4.encode_into(out);
        self.padding_5.encode_into(out);
        self.padding_6.encode_into(out);
        self.padding_7.encode_into(out);
        assert(out@ =~= old(out)@ + self.spec_encode_reserved());
    }

    /// Where each field of this region lies in the encoding of the record.
    pub proof fn lemma_identity_placed(&self)
        ensures
            self.spec_encode().subrange(0, 32) == self.admin_authority.spec_encode(),
            self.spec_encode().subrange(32, 64) == self.global_config.spec_encode(),
            self.spec_encode().subrange(64, 96) == self.base_vault_authority.spec_encode(),
            self.spec_encode().subrange(96, 104) == self.base_vault_authority_bump.spec_encode(),
            self.spec_encode().subrange(104, 136) == self.pool.spec_encode(),
            self.spec_encode().subrange(136, 168) == self.pool_token_vault_a.spec_encode(),
            self.spec_encode().subrange(168, 200) == self.pool_token_vault_b.spec_encode(),
            self.spec_encode().subrange(200, 232) == self.tick_array_lower.spec_encode(),
            self.spec_encode().subrange(232, 264) == self.tick_array_upper.spec_encode(),
            self.spec_encode().subrange(264, 296) == self.position.spec_encode(),
            self.spec_encode().subrange(296, 328) == self.position_mint.spec_encode(),
            self.spec_encode().subrange(328, 360) == self.position_metadata.spec_encode(),
            self.spec_encode().subrange(360, 392) == self.position_token_account.spec_encode(),
    {
        let bytes = self.spec_encode();
        self.lemma_identity_len();
        self.lemma_tokens_len();
        self.lemma_shares_len();
        self.lemma_rewards_len();
        self.lemma_accounting_len();
        self.lemma_fees_len();
        self.lemma_streams_len();
        self.lemma_flags_len();
        self.lemma_wiring_len();
        self.lemma_reserved_len();
        let part = self.spec_encode_identity();
        assert(bytes.subrange(0, 392) =~= part);
        lemma_window(bytes, 0, 392);
        self.admin_authority.lemma_encode_len();
        self.global_config.lemma_encode_len();
        self.base_vault_authority.lemma_encode_len();
        self.base_vault_authority_bump.lemma_encode_len();
        self.pool.lemma_encode_len();
        self.pool_token_vault_a.lemma_encode_len();
        self.pool_token_vault_b.lemma_encode_len();
        self.tick_array_lower.lemma_encode_len();
        self.tick_array_upper.lemma_encode_len();
        self.position.lemma_encode_len();
        self.position_mint.lemma_encode_len();
        self.position_metadata.lemma_encode_len();
        self.position_token_account.lemma_encode_len();
        assert(part.subrange(0, 32) =~= self.admin_authority.spec_encode());
        assert(bytes.subrange(0, 392).subrange(0, 32) == bytes.subrange(0, 32));
        assert(part.subrange(32, 64) =~= self.global_config.spec_encode());
        assert(bytes.subrange(0, 392).subrange(32, 64) == bytes.subrange(32, 64));
        assert(part.subrange(64, 96) =~= self.base_vault_authority.spec_encode());
        assert(bytes.subrange(0, 392).subrange(64, 96) == bytes.subrange(64, 96));
        assert(part.subrange(96, 104) =~= self.base_vault_authority_bump.spec_encode());
        assert(bytes.subrange(0, 392).subrange(96, 104) == bytes.subrange(96, 104));
        assert(part.subrange(104, 136) =~= self.pool.spec_encode());
        assert(bytes.subrange(0, 392).subrange(104, 136) == bytes.subrange(104, 136));
        assert(part.subrange(136, 168) =~= self.pool_token_vault_a.spec_encode());
        assert(bytes.subrange(0, 392).subrange(136, 168) == bytes.subrange(136, 168));
        assert(part.subrange(168, 200) =~= self.pool_token_vault_b.spec_encode());
        assert(bytes.subrange(0, 392).subrange(168, 200) == bytes.subrange(168, 200));
        assert(part.subrange(200, 232) =~= self.tick_array_lower.spec_encode());
        assert(bytes.subrange(0, 392).subrange(200, 232) == bytes.subrange(200, 232));
        assert(part.subrange(232, 264) =~= self.tick_array_upper.spec_encode());
        assert(bytes.subrange(0, 392).subrange(232, 264) == bytes.subrange(232, 264));
        assert(part.subrange(264, 296) =~= self.position.spec_encode());
        assert(bytes.subrange(0, 392).subrange(264, 296) == bytes.subrange(264, 296));
        assert(part.subrange(296, 328) =~= self.position_mint.spec_encode());
        assert(bytes.subrange(0, 392).subrange(296, 328) == bytes.subrange(296, 328));
        assert(part.subrange(328, 360) =~= self.position_metadata.spec_encode());
        assert(bytes.subrange(0, 392).subrange(328, 360) == bytes.subrange(328, 360));
        assert(part.subrange(360, 392) =~= self.position_token_account.spec_encode());
        assert(bytes.subrange(0, 392).subrange(360, 392) == bytes.subrange(360, 392));
    }

    proof fn lemma_identity_encoded(bytes: Seq<u8>)
        requires
            bytes.len() == 4056,
        ensures
            Self::spec_decode(bytes).spec_encode_identity() == bytes.subrange(0, 392),
    {
        Address::lemma_encode_decode(bytes.subrange(0, 32));
        Address::lemma_encode_decode(bytes.subrange(32, 64));
        Address::lemma_encode_decode(bytes.subrange(64, 96));
        u64::lemma_encode_decode(bytes.subrange(96, 104));
        Address::lemma_encode_decode(bytes.subrange(104, 136));
        Address::lemma_encode_decode(bytes.subrange(136, 168));
        Address::lemma_encode_decode(bytes.subrange(168, 200));
        Address::lemma_encode_decode(bytes.subrange(200, 232));
        Address::lemma_encode_decode(bytes.subrange(232, 264));
        Address::lemma_encode_decode(bytes.subrange(264, 296));
        Address::lemma_encode_decode(bytes.subrange(296, 328));
        Address::lemma_encode_decode(bytes.subrange(328, 360));
        Address::lemma_encode_decode(bytes.subrange(360, 392));
        assert(Self::spec_decode(bytes).spec_encode_identity() =~= bytes.subrange(0, 392));
    }

    proof fn lemma_identity_zeroed()
        ensures
            Self::spec_zeroed().spec_encode_identity() == zeros(392),
    {
        Address::lemma_zeroed();
        Address::lemma_zeroed();
        Address::lemma_zeroed();
        u64::lemma_zeroed();
        Address::lemma_zeroed();
        Address::lemma_zeroed();
        Address::lemma_zeroed();
        Address::lemma_zeroed();
        Address::lemma_zeroed();
        Address::lemma_zeroed();
        Address::lemma_zeroed();
        Address::lemma_zeroed();
        Address::lemma_zeroed();
        assert(Self::spec_zeroed().spec_encode_identity() =~= zeros(392));
    }

    proof fn lemma_identity_len(&self)
        ensures
            self.spec_encode_identity().len() == 392,
    {
        self.admin_authority.lemma_encode_len();
        self.global_config.lemma_encode_len();
        self.base_vault_authority.lemma_encode_len();
        self.base_vault_authority_bump.lemma_encode_len();
        self.pool.lemma_encode_len();
        self.pool_token_vault_a.lemma_encode_len();
        self.pool_token_vault_b.lemma_encode_len();
        self.tick_array_lower.lemma_encode_len();
        self.tick_array_upper.lemma_encode_len();
        self.position.lemma_encode_len();
        self.position_mint.lemma_encode_len();
        self.position_metadata.lemma_encode_len();
        self.position_token_account.lemma_encode_len();
    }

    /// Where each field of this region lies in the encoding of the record.
    pub proof fn lemma_tokens_placed(&self)
        ensures
            self.spec_encode().subrange(392, 424) == self.token_a_vault.spec_encode(),
            self.spec_encode().subrange(424, 456) == self.token_b_vault.spec_encode(),
            self.spec_encode().subrange(456, 520) == self.deprecated_0.spec_encode(),
            self.spec_encode().subrange(520, 536) == self.deprecated_1.spec_encode(),
            self.spec_encode().subrange(536, 568) == self.token_a_mint.spec_encode(),
            self.spec_encode().subrange(568, 600) == self.token_b_mint.spec_encode(),
            self.spec_encode().subrange(600, 608) == self.token_a_mint_decimals.spec_encode(),
            self.spec_encode().subrange(608, 616) == self.token_b_mint_decimals.spec_encode(),
            self.spec_encode().subrange(616, 624) == self.token_a_amounts.spec_encode(),
            self.spec_encode().subrange(624, 632) == self.token_b_amounts.spec_encode(),
            self.spec_encode().subrange(632, 640) == self.token_a_collateral_id.spec_encode(),
            self.spec_encode().subrange(640, 648) == self.token_b_collateral_id.spec_encode(),
    {
        let bytes = self.spec_encode();
        self.lemma_identity_len();
        self.lemma_tokens_len();
        self.lemma_shares_len();
        self.lemma_rewards_len();
        self.lemma_accounting_len();
        self.lemma_fees_len();
        self.lemma_streams_len();
        self.lemma_flags_len();
        self.lemma_wiring_len();
        self.lemma_reserved_len();
        let part = self.spec_encode_tokens();
        assert(bytes.subrange(392, 648) =~= part);
        lemma_window(bytes, 392, 256);
        self.token_a_vault.lemma_encode_len();
        self.token_b_vault.lemma_encode_len();
        self.deprecated_0.lemma_encode_len();
        self.deprecated_1.lemma_encode_len();
        self.token_a_mint.lemma_encode_len();
        self.token_b_mint.lemma_encode_len();
        self.token_a_mint_decimals.lemma_encode_len();
        self.token_b_mint_decimals.lemma_encode_len();
        self.token_a_amounts.lemma_encode_len();
        self.token_b_amounts.lemma_encode_len();
        self.token_a_collateral_id.lemma_encode_len();
        self.token_b_collateral_id.lemma_encode_len();
        assert(part.subrange(0, 32) =~= self.token_a_vault.spec_encode());
        assert(bytes.subrange(392, 648).subrange(0, 32) == bytes.subrange(392, 424));
        assert(part.subrange(32, 64) =~= self.token_b_vault.spec_encode());
        assert(bytes.subrange(392, 648).subrange(32, 64) == bytes.subrange(424, 456));
        assert(part.subrange(64, 128) =~= self.deprecated_0.spec_encode());
        assert(bytes.subrange(392, 648).subrange(64, 128) == bytes.subrange(456, 520));
        assert(part.subrange(128, 144) =~= self.deprecated_1.spec_encode());
        assert(bytes.subrange(392, 648).subrange(128, 144) == bytes.subrange(520, 536));
        assert(part.subrange(144, 176) =~= self.token_a_mint.spec_encode());
        assert(bytes.subrange(392, 648).subrange(144, 176) == bytes.subrange(536, 568));
        assert(part.subrange(176, 208) =~= self.token_b_mint.spec_encode());
        assert(bytes.subrange(392, 648).subrange(176, 208) == bytes.subrange(568, 600));
        assert(part.subrange(208, 216) =~= self.token_a_mint_decimals.spec_encode());
        assert(bytes.subrange(392, 648).subrange(208, 216) == bytes.subrange(600, 608));
        assert(part.subrange(216, 224) =~= self.token_b_mint_decimals.spec_encode());
        assert(bytes.subrange(392, 648).subrange(216, 224) == bytes.subrange(608, 616));
        assert(part.subrange(224, 232) =~= self.token_a_amounts.spec_encode());
        assert(bytes.subrange(392, 648).subrange(224, 232) == bytes.subrange(616, 624));
        assert(part.subrange(232, 240) =~= self.token_b_amounts.spec_encode());
        assert(bytes.subrange(392, 648).subrange(232, 240) == bytes.subrange(624, 632));
        assert(part.subrange(240, 248) =~= self.token_a_collateral_id.spec_encode());
        assert(bytes.subrange(392, 648).subrange(240, 248) == bytes.subrange(632, 640));
        assert(part.subrange(248, 256) =~= self.token_b_collateral_id.spec_encode());
        assert(bytes.subrange(392, 648).subrange(248, 256) == bytes.subrange(640, 648));
    }

    proof fn lemma_tokens_encoded(bytes: Seq<u8>)
        requires
            bytes.len() == 4056,
        ensures
            Self::spec_decode(bytes).spec_encode_tokens() == bytes.subrange(392, 648),
    {
        Address::lemma_encode_decode(bytes.subrange(392, 424));
        Address::lemma_encode_decode(bytes.subrange(424, 456));
        <[Address; 2]>::lemma_encode_decode(bytes.subrange(456, 520));
        <[u64; 2]>::lemma_encode_decode(bytes.subrange(520, 536));
        Address::lemma_encode_decode(bytes.subrange(536, 568));
        Address::lemma_encode_decode(bytes.subrange(568, 600));
        u64::lemma_encode_decode(bytes.subrange(600, 608));
        u64::lemma_encode_decode(bytes.subrange(608, 616));
        u64::lemma_encode_decode(bytes.subrange(616, 624));
        u64::lemma_encode_decode(bytes.subrange(624, 632));
        u64::lemma_encode_decode(bytes.subrange(632, 640));
        u64::lemma_encode_decode(bytes.subrange(640, 648));
        assert(Self::spec_decode(bytes).spec_encode_tokens() =~= bytes.subrange(392, 648));
    }

    proof fn lemma_tokens_zeroed()
        ensures
            Self::spec_zeroed().spec_encode_tokens() == zeros(256),
    {
        Address::lemma_zeroed();
        Address::lemma_zeroed();
        <[Address; 2]>::lemma_zeroed();
        <[u64; 2]>::lemma_zeroed();
        Address::lemma_zeroed();
        Address::lemma_zeroed();
        u64::lemma_zeroed();
        u64::lemma_zeroed();
        u64::lemma_zeroed();
        u64::lemma_zeroed();
        u64::lemma_zeroed();
        u64::lemma_zeroed();
        assert(Self::spec_zeroed().spec_encode_tokens() =~= zeros(256));
    }

    proof fn lemma_tokens_len(&self)
        ensures
            self.spec_encode_tokens().len() == 256,
    {
        self.token_a_vault.lemma_encode_len();
        self.token_b_vault.lemma_encode_len();
        self.deprecated_0.lemma_encode_len();
        self.deprecated_1.lemma_encode_len();
        self.token_a_mint.lemma_encode_len();
        self.token_b_mint.lemma_encode_len();
        self.token_a_mint_decimals.lemma_encode_len();
        self.token_b_mint_decimals.lemma_encode_len();
        self.token_a_amounts.lemma_encode_len();
        self.token_b_amounts.lemma_encode_len();
        self.token_a_collateral_id.lemma_encode_len();
        self.token_b_collateral_id.lemma_encode_len();
    }

    /// Where each field of this region lies in the encoding of the record.
    pub proof fn lemma_shares_placed(&self)
        ensures
            self.spec_encode().subrange(648, 680) == self.scope_prices.spec_encode(),
            self.spec_encode().subrange(680, 712) == self.deprecated_2.spec_encode(),
            self.spec_encode().subrange(712, 744) == self.shares_mint.spec_encode(),
            self.spec_encode().subrange(744, 752) == self.shares_mint_decimals.spec_encode(),
            self.spec_encode().subrange(752, 784) == self.shares_mint_authority.spec_encode(),
            self.spec_encode().subrange(784, 792) == self.shares_mint_authority_bump.spec_encode(),
            self.spec_encode().subrange(792, 800) == self.shares_issued.spec_encode(),
            self.spec_encode().subrange(800, 808) == self.status.spec_encode(),
    {
        let bytes = self.spec_encode();
        self.lemma_identity_len();
        self.lemma_tokens_len();
        self.lemma_shares_len();
        self.lemma_rewards_len();
        self.lemma_accounting_len();
        self.lemma_fees_len();
        self.lemma_streams_len();
        self.lemma_flags_len();
        self.lemma_wiring_len();
        self.lemma_reserved_len();
        let part = self.spec_encode_shares();
        assert(bytes.subrange(648, 808) =~= part);
        lemma_window(bytes, 648, 160);
        self.scope_prices.lemma_encode_len();
        self.deprecated_2.lemma_encode_len();
        self.shares_mint.lemma_encode_len();
        self.shares_mint_decimals.lemma_encode_len();
        self.shares_mint_authority.lemma_encode_len();
        self.shares_mint_authority_bump.lemma_encode_len();
        self.shares_issued.lemma_encode_len();
        self.status.lemma_encode_len();
        assert(part.subrange(0, 32) =~= self.scope_prices.spec_encode());
        assert(bytes.subrange(648, 808).subrange(0, 32) == bytes.subrange(648, 680));
        assert(part.subrange(32, 64) =~= self.deprecated_2.spec_encode());
        assert(bytes.subrange(648, 808).subrange(32, 64) == bytes.subrange(680, 712));
        assert(part.subrange(64, 96) =~= self.shares_mint.spec_encode());
        assert(bytes.subrange(648, 808).subrange(64, 96) == bytes.subrange(712, 744));
        assert(part.subrange(96, 104) =~= self.shares_mint_decimals.spec_encode());
        assert(bytes.subrange(648, 808).subrange(96, 104) == bytes.subrange(744, 752));
        assert(part.subrange(104, 136) =~= self.shares_mint_authority.spec_encode());
        assert(bytes.subrange(648, 808).subrange(104, 136) == bytes.subrange(752, 784));
        assert(part.subrange(136, 144) =~= self.shares_mint_authority_bump.spec_encode());
        assert(bytes.subrange(648, 808).subrange(136, 144) == bytes.subrange(784, 792));
        assert(part.subrange(144, 152) =~= self.shares_issued.spec_encode());
        assert(bytes.subrange(648, 808).subrange(144, 152) == bytes.subrange(792, 800));
        assert(part.subrange(152, 160) =~= self.status.spec_encode());
        assert(bytes.subrange(648, 808).subrange(152, 160) == bytes.subrange(800, 808));
    }

    proof fn lemma_shares_encoded(bytes: Seq<u8>)
        requires
            bytes.len() == 4056,
        ensures
            Self::spec_decode(bytes).spec_encode_shares() == bytes.subrange(648, 808),
    {
        Address::lemma_encode_decode(bytes.subrange(648, 680));
        Address::lemma_encode_decode(bytes.subrange(680, 712));
        Address::lemma_encode_decode(bytes.subrange(712, 744));
        u64::lemma_encode_decode(bytes.subrange(744, 752));
        Address::lemma_encode_decode(bytes.subrange(752, 784));
        u64::lemma_encode_decode(bytes.subrange(784, 792));
        u64::lemma_encode_decode(bytes.subrange(792, 800));
        u64::lemma_encode_decode(bytes.subrange(800, 808));
        assert(Self::spec_decode(bytes).spec_encode_shares() =~= bytes.subrange(648, 808));
    }

    proof fn lemma_shares_zeroed()
        ensures
            Self::spec_zeroed().spec_encode_shares() == zeros(160),
    {
        Address::lemma_zeroed();
        Address::lemma_zeroed();
        Address::lemma_zeroed();
        u64::lemma_zeroed();
        Address::lemma_zeroed();
        u64::lemma_zeroed();
        u64::lemma_zeroed();
        u64::lemma_zeroed();
        assert(Self::spec_zeroed().spec_encode_shares() =~= zeros(160));
    }

    proof fn lemma_shares_len(&self)
        ensures
            self.spec_encode_shares().len() == 160,
    {
        self.scope_prices.lemma_encode_len();
        self.deprecated_2.lemma_encode_len();
        self.shares_mint.lemma_encode_len();
        self.shares_mint_decimals.lemma_encode_len();
        self.shares_mint_authority.lemma_encode_len();
        self.shares_mint_authority_bump.lemma_encode_len();
        self.shares_issued.lemma_encode_len();
        self.status.lemma_encode_len();
    }

    /// Where each field of this region lies in the encoding of the record.
    pub proof fn lemma_rewards_placed(&self)
        ensures
            self.spec_encode().subrange(808, 816) == self.reward_0_amount.spec_encode(),
            self.spec_encode().subrange(816, 848) == self.reward_0_vault.spec_encode(),
            self.spec_encode().subrange(848, 856) == self.reward_0_collateral_id.spec_encode(),
            self.spec_encode().subrange(856, 864) == self.reward_0_decimals.spec_encode(),
            self.spec_encode().subrange(864, 872) == self.reward_1_amount.spec_encode(),
            self.spec_encode().subrange(872, 904) == self.reward_1_vault.spec_encode(),
            self.spec_encode().subrange(904, 912) == self.reward_1_collateral_id.spec_encode(),
            self.spec_encode().subrange(912, 920) == self.reward_1_decimals.spec_encode(),
            self.spec_encode().subrange(920, 928) == self.reward_2_amount.spec_encode(),
            self.spec_encode().subrange(928, 960) == self.reward_2_vault.spec_encode(),
            self.spec_encode().subrange(960, 968) == self.reward_2_collateral_id.spec_encode(),
            self.spec_encode().subrange(968, 976) == self.reward_2_decimals.spec_encode(),
    {
        let bytes = self.spec_encode();
        self.lemma_identity_len();
        self.lemma_tokens_len();
        self.lemma_shares_len();
        self.lemma_rewards_len();
        self.lemma_accounting_len();
        self.lemma_fees_len();
        self.lemma_streams_len();
        self.lemma_flags_len();
        self.lemma_wiring_len();
        self.lemma_reserved_len();
        let part = self.spec_encode_rewards();
        assert(bytes.subrange(808, 976) =~= part);
        lemma_window(bytes, 808, 168);
        self.reward_0_amount.lemma_encode_len();
        self.reward_0_vault.lemma_encode_len();
        self.reward_0_collateral_id.lemma_encode_len();
        self.reward_0_decimals.lemma_encode_len();
        self.reward_1_amount.lemma_encode_len();
        self.reward_1_vault.lemma_encode_len();
        self.reward_1_collateral_id.lemma_encode_len();
        self.reward_1_decimals.lemma_encode_len();
        self.reward_2_amount.lemma_encode_len();
        self.reward_2_vault.lemma_encode_len();
        self.reward_2_collateral_id.lemma_encode_len();
        self.reward_2_decimals.lemma_encode_len();
        assert(part.subrange(0, 8) =~= self.reward_0_amount.spec_encode());
        assert(bytes.subrange(808, 976).subrange(0, 8) == bytes.subrange(808, 816));
        assert(part.subrange(8, 40) =~= self.reward_0_vault.spec_encode());
        assert(bytes.subrange(808, 976).subrange(8, 40) == bytes.subrange(816, 848));
        assert(part.subrange(40, 48) =~= self.reward_0_collateral_id.spec_encode());
        assert(bytes.subrange(808, 976).subrange(40, 48) == bytes.subrange(848, 856));
        assert(part.subrange(48, 56) =~= self.reward_0_decimals.spec_encode());
        assert(bytes.subrange(808, 976).subrange(48, 56) == bytes.subrange(856, 864));
        assert(part.subrange(56, 64) =~= self.reward_1_amount.spec_encode());
        assert(bytes.subrange(808, 976).subrange(56, 64) == bytes.subrange(864, 872));
        assert(part.subrange(64, 96) =~= self.reward_1_vault.spec_encode());
        assert(bytes.subrange(808, 976).subrange(64, 96) == bytes.subrange(872, 904));
        assert(part.subrange(96, 104) =~= self.reward_1_collateral_id.spec_encode());
        assert(bytes.subrange(808, 976).subrange(96, 104) == bytes.subrange(904, 912));
        assert(part.subrange(104, 112) =~= self.reward_1_decimals.spec_encode());
        assert(bytes.subrange(808, 976).subrange(104, 112) == bytes.subrange(912, 920));
        assert(part.subrange(112, 120) =~= self.reward_2_amount.spec_encode());
        assert(bytes.subrange(808, 976).subrange(112, 120) == bytes.subrange(920, 928));
        assert(part.subrange(120, 152) =~= self.reward_2_vault.spec_encode());
        assert(bytes.subrange(808, 976).subrange(120, 152) == bytes.subrange(928, 960));
        assert(part.subrange(152, 160) =~= self.reward_2_collateral_id.spec_encode());
        assert(bytes.subrange(808, 976).subrange(152, 160) == bytes.subrange(960, 968));
        assert(part.subrange(160, 168) =~= self.reward_2_decimals.spec_encode());
        assert(bytes.subrange(808, 976).subrange(160, 168) == bytes.subrange(968, 976));
    }

    proof fn lemma_rewards_encoded(bytes: Seq<u8>)
        requires
            bytes.len() == 4056,
        ensures
            Self::spec_decode(bytes).spec_encode_rewards() == bytes.subrange(808, 976),
    {
        u64::lemma_encode_decode(bytes.subrange(808, 816));
        Address::lemma_encode_decode(bytes.subrange(816, 848));
        u64::lemma_encode_decode(bytes.subrange(848, 856));
        u64::lemma_encode_decode(bytes.subrange(856, 864));
        u64::lemma_encode_decode(bytes.subrange(864, 872));
        Address::lemma_encode_decode(bytes.subrange(872, 904));
        u64::lemma_encode_decode(bytes.subrange(904, 912));
        u64::lemma_encode_decode(bytes.subrange(912, 920));
        u64::lemma_encode_decode(bytes.subrange(920, 928));
        Address::lemma_encode_decode(bytes.subrange(928, 960));
        u64::lemma_encode_decode(bytes.subrange(960, 968));
        u64::lemma_encode_decode(bytes.subrange(968, 976));
        assert(Self::spec_decode(bytes).spec_encode_rewards() =~= bytes.subrange(808, 976));
    }

    proof fn lemma_rewards_zeroed()
        ensures
            Self::spec_zeroed().spec_encode_rewards() == zeros(168),
    {
        u64::lemma_zeroed();
        Address::lemma_zeroed();
        u64::lemma_zeroed();
        u64::lemma_zeroed();
        u64::lemma_zeroed();
        Address::lemma_zeroed();
        u64::lemma_zeroed();
        u64::lemma_zeroed();
        u64::lemma_zeroed();
        Address::lemma_zeroed();
        u64::lemma_zeroed();
        u64::lemma_zeroed();
        assert(Self::spec_zeroed().spec_encode_rewards() =~= zeros(168));
    }

    proof fn lemma_rewards_len(&self)
        ensures
            self.spec_encode_rewards().len() == 168,
    {
        self.reward_0_amount.lemma_encode_len();
        self.reward_0_vault.lemma_encode_len();
        self.reward_0_collateral_id.lemma_encode_len();
        self.reward_0_decimals.lemma_encode_len();
        self.reward_1_amount.lemma_encode_len();
        self.reward_1_vault.lemma_encode_len();
        self.reward_1_collateral_id.lemma_encode_len();
        self.reward_1_decimals.lemma_encode_len();
        self.reward_2_amount.lemma_encode_len();
        self.reward_2_vault.lemma_encode_len();
        self.reward_2_collateral_id.lemma_encode_len();
        self.reward_2_decimals.lemma_encode_len();
    }

    /// Where each field of this region lies in the encoding of the record.
    pub proof fn lemma_accounting_placed(&self)
        ensures
            self.spec_encode().subrange(976, 984) == self.deposit_cap_usd.spec_encode(),
            self.spec_encode().subrange(984, 992) == self.fees_a_cumulative.spec_encode(),
            self.spec_encode().subrange(992, 1000) == self.fees_b_cumulative.spec_encode(),
            self.spec_encode().subrange(1000, 1008) == self.reward_0_amount_cumulative.spec_encode(),
            self.spec_encode().subrange(1008, 1016) == self.reward_1_amount_cumulative.spec_encode(),
            self.spec_encode().subrange(1016, 1024) == self.reward_2_amount_cumulative.spec_encode(),
            self.spec_encode().subrange(1024, 1032) == self.deposit_cap_usd_per_ixn.spec_encode(),
            self.spec_encode().subrange(1032, 1064) == self.withdrawal_cap_a.spec_encode(),
            self.spec_encode().subrange(1064, 1096) == self.withdrawal_cap_b.spec_encode(),
    {
        let bytes = self.spec_encode();
        self.lemma_identity_len();
        self.lemma_tokens_len();
        self.lemma_shares_len();
        self.lemma_rewards_len();
        self.lemma_accounting_len();
        self.lemma_fees_len();
        self.lemma_streams_len();
        self.lemma_flags_len();
        self.lemma_wiring_len();
        self.lemma_reserved_len();
        let part = self.spec_encode_accounting();
        assert(bytes.subrange(976, 1096) =~= part);
        lemma_window(bytes, 976, 120);
        self.deposit_cap_usd.lemma_encode_len();
        self.fees_a_cumulative.lemma_encode_len();
        self.fees_b_cumulative.lemma_encode_len();
        self.reward_0_amount_cumulative.lemma_encode_len();
        self.reward_1_amount_cumulative.lemma_encode_len();
        self.reward_2_amount_cumulative.lemma_encode_len();
        self.deposit_cap_usd_per_ixn.lemma_encode_len();
        self.withdrawal_cap_a.lemma_encode_len();
        self.withdrawal_cap_b.lemma_encode_len();
        assert(part.subrange(0, 8) =~= self.deposit_cap_usd.spec_encode());
        assert(bytes.subrange(976, 1096).subrange(0, 8) == bytes.subrange(976, 984));
        assert(part.subrange(8, 16) =~= self.fees_a_cumulative.spec_encode());
        assert(bytes.subrange(976, 1096).subrange(8, 16) == bytes.subrange(984, 992));
        assert(part.subrange(16, 24) =~= self.fees_b_cumulative.spec_encode());
        assert(bytes.subrange(976, 1096).subrange(16, 24) == bytes.subrange(992, 1000));
        assert(part.subrange(24, 32) =~= self.reward_0_amount_cumulative.spec_encode());
        assert(bytes.subrange(976, 1096).subrange(24, 32) == bytes.subrange(1000, 1008));
        assert(part.subrange(32, 40) =~= self.reward_1_amount_cumulative.spec_encode());
        assert(bytes.subrange(976, 1096).subrange(32, 40) == bytes.subrange(1008, 1016));
        assert(part.subrange(40, 48) =~= self.reward_2_amount_cumulative.spec_encode());
        assert(bytes.subrange(976, 1096).subrange(40, 48) == bytes.subrange(1016, 1024));
        assert(part.subrange(48, 56) =~= self.deposit_cap_usd_per_ixn.spec_encode());
        assert(bytes.subrange(976, 1096).subrange(48, 56) == bytes.subrange(1024, 1032));
        assert(part.subrange(56, 88) =~= self.withdrawal_cap_a.spec_encode());
        assert(bytes.subrange(976, 1096).subrange(56, 88) == bytes.subrange(1032, 1064));
        assert(part.subrange(88, 120) =~= self.withdrawal_cap_b.spec_encode());
        assert(bytes.subrange(976, 1096).subrange(88, 120) == bytes.subrange(1064, 1096));
    }

    proof fn lemma_accounting_encoded(bytes: Seq<u8>)
        requires
            bytes.len() == 4056,
        ensures
            Self::spec_decode(bytes).spec_encode_accounting() == bytes.subrange(976, 1096),
    {
        u64::lemma_encode_decode(bytes.subrange(976, 984));
        u64::lemma_encode_decode(bytes.subrange(984, 992));
        u64::lemma_encode_decode(bytes.subrange(992, 1000));
        u64::lemma_encode_decode(bytes.subrange(1000, 1008));
        u64::lemma_encode_decode(bytes.subrange(1008, 1016));
        u64::lemma_encode_decode(bytes.subrange(1016, 1024));
        u64::lemma_encode_decode(bytes.subrange(1024, 1032));
        WithdrawalCaps::lemma_encode_decode(bytes.subrange(1032, 1064));
        WithdrawalCaps::lemma_encode_decode(bytes.subrange(1064, 1096));
        assert(Self::spec_decode(bytes).spec_encode_accounting() =~= bytes.subrange(976, 1096));
    }

    proof fn lemma_accounting_zeroed()
        ensures
            Self::spec_zeroed().spec_encode_accounting() == zeros(120),
    {
        u64::lemma_zeroed();
        u64::lemma_zeroed();
        u64::lemma_zeroed();
        u64::lemma_zeroed();
        u64::lemma_zeroed();
        u64::lemma_zeroed();
        u64::lemma_zeroed();
        WithdrawalCaps::lemma_zeroed();
        WithdrawalCaps::lemma_zeroed();
        assert(Self::spec_zeroed().spec_encode_accounting() =~= zeros(120));
    }

    proof fn lemma_accounting_len(&self)
        ensures
            self.spec_encode_accounting().len() == 120,
    {
        self.deposit_cap_usd.lemma_encode_len();
        self.fees_a_cumulative.lemma_encode_len();
        self.fees_b_cumulative.lemma_encode_len();
        self.reward_0_amount_cumulative.lemma_encode_len();
        self.reward_1_amount_cumulative.lemma_encode_len();
        self.reward_2_amount_cumulative.lemma_encode_len();
        self.deposit_cap_usd_per_ixn.lemma_encode_len();
        self.withdrawal_cap_a.lemma_encode_len();
        self.withdrawal_cap_b.lemma_encode_len();
    }

    /// Where each field of this region lies in the encoding of the record.
    pub proof fn lemma_fees_placed(&self)
        ensures
            self.spec_encode().subrange(1096, 1104) == self.max_price_deviation_bps.spec_encode(),
            self.spec_encode().subrange(1104, 1108) == self.swap_vault_max_slippage_bps.spec_encode(),
            self.spec_encode().subrange(1108, 1112) == self.swap_vault_max_slippage_from_reference_bps.spec_encode(),
            self.spec_encode().subrange(1112, 1120) == self.strategy_type.spec_encode(),
            self.spec_encode().subrange(1120, 1128) == self.padding_0.spec_encode(),
            self.spec_encode().subrange(1128, 1136) == self.withdraw_fee.spec_encode(),
            self.spec_encode().subrange(1136, 1144) == self.fees_fee.spec_encode(),
            self.spec_encode().subrange(1144, 1152) == self.reward_0_fee.spec_encode(),
            self.spec_encode().subrange(1152, 1160) == self.reward_1_fee.spec_encode(),
            self.spec_encode().subrange(1160, 1168) == self.reward_2_fee.spec_encode(),
            self.spec_encode().subrange(1168, 1176) == self.position_timestamp.spec_encode(),
    {
        let bytes = self.spec_encode();
        self.lemma_identity_len();
        self.lemma_tokens_len();
        self.lemma_shares_len();
        self.lemma_rewards_len();
        self.lemma_accounting_len();
        self.lemma_fees_len();
        self.lemma_streams_len();
        self.lemma_flags_len();
        self.lemma_wiring_len();
        self.lemma_reserved_len();
        let part = self.spec_encode_fees();
        assert(bytes.subrange(1096, 1176) =~= part);
        lemma_window(bytes, 1096, 80);
        self.max_price_deviation_bps.lemma_encode_len();
        self.swap_vault_max_slippage_bps.lemma_encode_len();
        self.swap_vault_max_slippage_from_reference_bps.lemma_encode_len();
        self.strategy_type.lemma_encode_len();
        self.padding_0.lemma_encode_len();
        self.withdraw_fee.lemma_encode_len();
        self.fees_fee.lemma_encode_len();
        self.reward_0_fee.lemma_encode_len();
        self.reward_1_fee.lemma_encode_len();
        self.reward_2_fee.lemma_encode_len();
        self.position_timestamp.lemma_encode_len();
        assert(part.subrange(0, 8) =~= self.max_price_deviation_bps.spec_encode());
        assert(bytes.subrange(1096, 1176).subrange(0, 8) == bytes.subrange(1096, 1104));
        assert(part.subrange(8, 12) =~= self.swap_vault_max_slippage_bps.spec_encode());
        assert(bytes.subrange(1096, 1176).subrange(8, 12) == bytes.subrange(1104, 1108));
        assert(part.subrange(12, 16) =~= self.swap_vault_max_slippage_from_reference_bps.spec_encode());
        assert(bytes.subrange(1096, 1176).subrange(12, 16) == bytes.subrange(1108, 1112));
        assert(part.subrange(16, 24) =~= self.strategy_type.spec_encode());
        assert(bytes.subrange(1096, 1176).subrange(16, 24) == bytes.subrange(1112, 1120));
        assert(part.subrange(24, 32) =~= self.padding_0.spec_encode());
        assert(bytes.subrange(1096, 1176).subrange(24, 32) == bytes.subrange(1120, 1128));
        assert(part.subrange(32, 40) =~= self.withdraw_fee.spec_encode());
        assert(bytes.subrange(1096, 1176).subrange(32, 40) == bytes.subrange(1128, 1136));
        assert(part.subrange(40, 48) =~= self.fees_fee.spec_encode());
        assert(bytes.subrange(1096, 1176).subrange(40, 48) == bytes.subrange(1136, 1144));
        assert(part.subrange(48, 56) =~= self.reward_0_fee.spec_encode());
        assert(bytes.subrange(1096, 1176).subrange(48, 56) == bytes.subrange(1144, 1152));
        assert(part.subrange(56, 64) =~= self.reward_1_fee.spec_encode());
        assert(bytes.subrange(1096, 1176).subrange(56, 64) == bytes.subrange(1152, 1160));
        assert(part.subrange(64, 72) =~= self.reward_2_fee.spec_encode());
        assert(bytes.subrange(1096, 1176).subrange(64, 72) == bytes.subrange(1160, 1168));
        assert(part.subrange(72, 80) =~= self.position_timestamp.spec_encode());
        assert(bytes.subrange(1096, 1176).subrange(72, 80) == bytes.subrange(1168, 1176));
    }

    proof fn lemma_fees_encoded(bytes: Seq<u8>)
        requires
            bytes.len() == 4056,
        ensures
            Self::spec_decode(bytes).spec_encode_fees() == bytes.subrange(1096, 1176),
    {
        u64::lemma_encode_decode(bytes.subrange(1096, 1104));
        u32::lemma_encode_decode(bytes.subrange(1104, 1108));
        u32::lemma_encode_decode(bytes.subrange(1108, 1112));
        u64::lemma_encode_decode(bytes.subrange(1112, 1120));
        u64::lemma_encode_decode(bytes.subrange(1120, 1128));
        u64::lemma_encode_decode(bytes.subrange(1128, 1136));
        u64::lemma_encode_decode(bytes.subrange(1136, 1144));
        u64::lemma_encode_decode(bytes.subrange(1144, 1152));
        u64::lemma_encode_decode(bytes.subrange(1152, 1160));
        u64::lemma_encode_decode(bytes.subrange(1160, 1168));
        u64::lemma_encode_decode(bytes.subrange(1168, 1176));
        assert(Self::spec_decode(bytes).spec_encode_fees() =~= bytes.subrange(1096, 1176));
    }

    proof fn lemma_fees_zeroed()
        ensures
            Self::spec_zeroed().spec_encode_fees() == zeros(80),
    {
        u64::lemma_zeroed();
        u32::lemma_zeroed();
        u32::lemma_zeroed();
        u64::lemma_zeroed();
        u64::lemma_zeroed();
        u64::lemma_zeroed();
        u64::lemma_zeroed();
        u64::lemma_zeroed();
        u64::lemma_zeroed();
        u64::lemma_zeroed();
        u64::lemma_zeroed();
        assert(Self::spec_zeroed().spec_encode_fees() =~= zeros(80));
    }

    proof fn lemma_fees_len(&self)
        ensures
            self.spec_encode_fees().len() == 80,
    {
        self.max_price_deviation_bps.lemma_encode_len();
        self.swap_vault_max_slippage_bps.lemma_encode_len();
        self.swap_vault_max_slippage_from_reference_bps.lemma_encode_len();
        self.strategy_type.lemma_encode_len();
        self.padding_0.lemma_encode_len();
        self.withdraw_fee.lemma_encode_len();
        self.fees_fee.lemma_encode_len();
        self.reward_0_fee.lemma_encode_len();
        self.reward_1_fee.lemma_encode_len();
        self.reward_2_fee.lemma_encode_len();
        self.position_timestamp.lemma_encode_len();
    }

    /// Where each field of this region lies in the encoding of the record.
    pub proof fn lemma_streams_placed(&self)
        ensures
            self.spec_encode().subrange(1176, 1536) == self.kamino_rewards.spec_encode(),
            self.spec_encode().subrange(1536, 1544) == self.strategy_dex.spec_encode(),
            self.spec_encode().subrange(1544, 1576) == self.raydium_protocol_position_or_base_vault_authority.spec_encode(),
            self.spec_encode().subrange(1576, 1584) == self.allow_deposit_without_invest.spec_encode(),
            self.spec_encode().subrange(1584, 1616) == self.raydium_pool_config_or_base_vault_authority.spec_encode(),
    {
        let bytes = self.spec_encode();
        self.lemma_identity_len();
        self.lemma_tokens_len();
        self.lemma_shares_len();
        self.lemma_rewards_len();
        self.lemma_accounting_len();
        self.lemma_fees_len();
        self.lemma_streams_len();
        self.lemma_flags_len();
        self.lemma_wiring_len();
        self.lemma_reserved_len();
        let part = self.spec_encode_streams();
        assert(bytes.subrange(1176, 1616) =~= part);
        lemma_window(bytes, 1176, 440);
        self.kamino_rewards.lemma_encode_len();
        self.strategy_dex.lemma_encode_len();
        self.raydium_protocol_position_or_base_vault_authority.lemma_encode_len();
        self.allow_deposit_without_invest.lemma_encode_len();
        self.raydium_pool_config_or_base_vault_authority.lemma_encode_len();
        assert(part.subrange(0, 360) =~= self.kamino_rewards.spec_encode());
        assert(bytes.subrange(1176, 1616).subrange(0, 360) == bytes.subrange(1176, 1536));
        assert(part.subrange(360, 368) =~= self.strategy_dex.spec_encode());
        assert(bytes.subrange(1176, 1616).subrange(360, 368) == bytes.subrange(1536, 1544));
        assert(part.subrange(368, 400) =~= self.raydium_protocol_position_or_base_vault_authority.spec_encode());
        assert(bytes.subrange(1176, 1616).subrange(368, 400) == bytes.subrange(1544, 1576));
        assert(part.subrange(400, 408) =~= self.allow_deposit_without_invest.spec_encode());
        assert(bytes.subrange(1176, 1616).subrange(400, 408) == bytes.subrange(1576, 1584));
        assert(part.subrange(408, 440) =~= self.raydium_pool_config_or_base_vault_authority.spec_encode());
        assert(bytes.subrange(1176, 1616).subrange(408, 440) == bytes.subrange(1584, 1616));
    }

    proof fn lemma_streams_encoded(bytes: Seq<u8>)
        requires
            bytes.len() == 4056,
        ensures
            Self::spec_decode(bytes).spec_encode_streams() == bytes.subrange(1176, 1616),
    {
        <[KaminoRewardInfo; 3]>::lemma_encode_decode(bytes.subrange(1176, 1536));
        u64::lemma_encode_decode(bytes.subrange(1536, 1544));
        Address::lemma_encode_decode(bytes.subrange(1544, 1576));
        u64::lemma_encode_decode(bytes.subrange(1576, 1584));
        Address::lemma_encode_decode(bytes.subrange(1584, 1616));
        assert(Self::spec_decode(bytes).spec_encode_streams() =~= bytes.subrange(1176, 1616));
    }

    proof fn lemma_streams_zeroed()
        ensures
            Self::spec_zeroed().spec_encode_streams() == zeros(440),
    {
        <[KaminoRewardInfo; 3]>::lemma_zeroed();
        u64::lemma_zeroed();
        Address::lemma_zeroed();
        u64::lemma_zeroed();
        Address::lemma_zeroed();
        assert(Self::spec_zeroed().spec_encode_streams() =~= zeros(440));
    }

    proof fn lemma_streams_len(&self)
        ensures
            self.spec_encode_streams().len() == 440,
    {
        self.kamino_rewards.lemma_encode_len();
        self.strategy_dex.lemma_encode_len();
        self.raydium_protocol_position_or_base_vault_authority.lemma_encode_len();
        self.allow_deposit_without_invest.lemma_encode_len();
        self.raydium_pool_config_or_base_vault_authority.lemma_encode_len();
    }

    /// Where each field of this region lies in the encoding of the record.
    pub proof fn lemma_flags_placed(&self)
        ensures
            self.spec_encode().subrange(1616, 1617) == self.deposit_blocked.spec_encode(),
            self.spec_encode().subrange(1617, 1618) == self.creation_status.spec_encode(),
            self.spec_encode().subrange(1618, 1619) == self.invest_blocked.spec_encode(),
            self.spec_encode().subrange(1619, 1620) == self.share_calculation_method.spec_encode(),
            self.spec_encode().subrange(1620, 1621) == self.withdraw_blocked.spec_encode(),
            self.spec_encode().subrange(1621, 1622) == self.reserved_flag_2.spec_encode(),
            self.spec_encode().subrange(1622, 1623) == self.local_admin_blocked.spec_encode(),
            self.spec_encode().subrange(1623, 1624) == self.flash_vault_swap_allowed.spec_encode(),
            self.spec_encode().subrange(1624, 1640) == self.reference_swap_price_a.spec_encode(),
            self.spec_encode().subrange(1640, 1656) == self.reference_swap_price_b.spec_encode(),
            self.spec_encode().subrange(1656, 1657) == self.is_community.spec_encode(),
            self.spec_encode().subrange(1657, 1658) == self.rebalance_type.spec_encode(),
            self.spec_encode().subrange(1658, 1664) == self.padding_1.spec_encode(),
            self.spec_encode().subrange(1664, 2049) == self.rebalance_raw.spec_encode(),
            self.spec_encode().subrange(2049, 2056) == self.padding_2.spec_encode(),
    {
        let bytes = self.spec_encode();
        self.lemma_identity_len();
        self.lemma_tokens_len();
        self.lemma_shares_len();
        self.lemma_rewards_len();
        self.lemma_accounting_len();
        self.lemma_fees_len();
        self.lemma_streams_len();
        self.lemma_flags_len();
        self.lemma_wiring_len();
        self.lemma_reserved_len();
        let part = self.spec_encode_flags();
        assert(bytes.subrange(1616, 2056) =~= part);
        lemma_window(bytes, 1616, 440);
        self.deposit_blocked.lemma_encode_len();
        self.creation_status.lemma_encode_len();
        self.invest_blocked.lemma_encode_len();
        self.share_calculation_method.lemma_encode_len();
        self.withdraw_blocked.lemma_encode_len();
        self.reserved_flag_2.lemma_encode_len();
        self.local_admin_blocked.lemma_encode_len();
        self.flash_vault_swap_allowed.lemma_encode_len();
        self.reference_swap_price_a.lemma_encode_len();
        self.reference_swap_price_b.lemma_encode_len();
        self.is_community.lemma_encode_len();
        self.rebalance_type.lemma_encode_len();
        self.padding_1.lemma_encode_len();
        self.rebalance_raw.lemma_encode_len();
        self.padding_2.lemma_encode_len();
        assert(part.subrange(0, 1) =~= self.deposit_blocked.spec_encode());
        assert(bytes.subrange(1616, 2056).subrange(0, 1) == bytes.subrange(1616, 1617));
        assert(part.subrange(1, 2) =~= self.creation_status.spec_encode());
        assert(bytes.subrange(1616, 2056).subrange(1, 2) == bytes.subrange(1617, 1618));
        assert(part.subrange(2, 3) =~= self.invest_blocked.spec_encode());
        assert(bytes.subrange(1616, 2056).subrange(2, 3) == bytes.subrange(1618, 1619));
        assert(part.subrange(3, 4) =~= self.share_calculation_method.spec_encode());
        assert(bytes.subrange(1616, 2056).subrange(3, 4) == bytes.subrange(1619, 1620));
        assert(part.subrange(4, 5) =~= self.withdraw_blocked.spec_encode());
        assert(bytes.subrange(1616, 2056).subrange(4, 5) == bytes.subrange(1620, 1621));
        assert(part.subrange(5, 6) =~= self.reserved_flag_2.spec_encode());
        assert(bytes.subrange(1616, 2056).subrange(5, 6) == bytes.subrange(1621, 1622));
        assert(part.subrange(6, 7) =~= self.local_admin_blocked.spec_encode());
        assert(bytes.subrange(1616, 2056).subrange(6, 7) == bytes.subrange(1622, 1623));
        assert(part.subrange(7, 8) =~= self.flash_vault_swap_allowed.spec_encode());
        assert(bytes.subrange(1616, 2056).subrange(7, 8) == bytes.subrange(1623, 1624));
        assert(part.subrange(8, 24) =~= self.reference_swap_price_a.spec_encode());
        assert(bytes.subrange(1616, 2056).subrange(8, 24) == bytes.subrange(1624, 1640));
        assert(part.subrange(24, 40) =~= self.reference_swap_price_b.spec_encode());
        assert(bytes.subrange(1616, 2056).subrange(24, 40) == bytes.subrange(1640, 1656));
        assert(part.subrange(40, 41) =~= self.is_community.spec_encode());
        assert(bytes.subrange(1616, 2056).subrange(40, 41) == bytes.subrange(1656, 1657));
        assert(part.subrange(41, 42) =~= self.rebalance_type.spec_encode());
        assert(bytes.subrange(1616, 2056).subrange(41, 42) == bytes.subrange(1657, 1658));
        assert(part.subrange(42, 48) =~= self.padding_1.spec_encode());
        assert(bytes.subrange(1616, 2056).subrange(42, 48) == bytes.subrange(1658, 1664));
        assert(part.subrange(48, 433) =~= self.rebalance_raw.spec_encode());
        assert(bytes.subrange(1616, 2056).subrange(48, 433) == bytes.subrange(1664, 2049));
        assert(part.subrange(433, 440) =~= self.padding_2.spec_encode());
        assert(bytes.subrange(1616, 2056).subrange(433, 440) == bytes.subrange(2049, 2056));
    }

    proof fn lemma_flags_encoded(bytes: Seq<u8>)
        requires
            bytes.len() == 4056,
        ensures
            Self::spec_decode(bytes).spec_encode_flags() == bytes.subrange(1616, 2056),
    {
        u8::lemma_encode_decode(bytes.subrange(1616, 1617));
        u8::lemma_encode_decode(bytes.subrange(1617, 1618));
        u8::lemma_encode_decode(bytes.subrange(1618, 1619));
        u8::lemma_encode_decode(bytes.subrange(1619, 1620));
        u8::lemma_encode_decode(bytes.subrange(1620, 1621));
        u8::lemma_encode_decode(bytes.subrange(1621, 1622));
        u8::lemma_encode_decode(bytes.subrange(1622, 1623));
        u8::lemma_encode_decode(bytes.subrange(1623, 1624));
        Price::lemma_encode_decode(bytes.subrange(1624, 1640));
        Price::lemma_encode_decode(bytes.subrange(1640, 1656));
        u8::lemma_encode_decode(bytes.subrange(1656, 1657));
        u8::lemma_encode_decode(bytes.subrange(1657, 1658));
        <[u8; 6]>::lemma_encode_decode(bytes.subrange(1658, 1664));
        RebalanceRaw::lemma_encode_decode(bytes.subrange(1664, 2049));
        <[u8; 7]>::lemma_encode_decode(bytes.subrange(2049, 2056));
        assert(Self::spec_decode(bytes).spec_encode_flags() =~= bytes.subrange(1616, 2056));
    }

    proof fn lemma_flags_zeroed()
        ensures
            Self::spec_zeroed().spec_encode_flags() == zeros(440),
    {
        u8::lemma_zeroed();
        u8::lemma_zeroed();
        u8::lemma_zeroed();
        u8::lemma_zeroed();
        u8::lemma_zeroed();
        u8::lemma_zeroed();
        u8::lemma_zeroed();
        u8::lemma_zeroed();
        Price::lemma_zeroed();
        Price::lemma_zeroed();
        u8::lemma_zeroed();
        u8::lemma_zeroed();
        <[u8; 6]>::lemma_zeroed();
        RebalanceRaw::lemma_zeroed();
        <[u8; 7]>::lemma_zeroed();
        assert(Self::spec_zeroed().spec_encode_flags() =~= zeros(440));
    }

    proof fn lemma_flags_len(&self)
        ensures
            self.spec_encode_flags().len() == 440,
    {
        self.deposit_blocked.lemma_encode_len();
        self.creation_status.lemma_encode_len();
        self.invest_blocked.lemma_encode_len();
        self.share_calculation_method.lemma_encode_len();
        self.withdraw_blocked.lemma_encode_len();
        self.reserved_flag_2.lemma_encode_len();
        self.local_admin_blocked.lemma_encode_len();
        self.flash_vault_swap_allowed.lemma_encode_len();
        self.reference_swap_price_a.lemma_encode_len();
        self.reference_swap_price_b.lemma_encode_len();
        self.is_community.lemma_encode_len();
        self.rebalance_type.lemma_encode_len();
        self.padding_1.lemma_encode_len();
        self.rebalance_raw.lemma_encode_len();
        self.padding_2.lemma_encode_len();
    }

    /// Where each field of this region lies in the encoding of the record.
    pub proof fn lemma_wiring_placed(&self)
        ensures
            self.spec_encode().subrange(2056, 2064) == self.token_a_fees_from_rewards_cumulative.spec_encode(),
            self.spec_encode().subrange(2064, 2072) == self.token_b_fees_from_rewards_cumulative.spec_encode(),
            self.spec_encode().subrange(2072, 2104) == self.strategy_lookup_table.spec_encode(),
            self.spec_encode().subrange(2104, 2112) == self.last_swap_uneven_step_timestamp.spec_encode(),
            self.spec_encode().subrange(2112, 2144) == self.farm.spec_encode(),
            self.spec_encode().subrange(2144, 2176) == self.rebalances_cap.spec_encode(),
            self.spec_encode().subrange(2176, 2208) == self.swap_uneven_authority.spec_encode(),
            self.spec_encode().subrange(2208, 2240) == self.token_a_token_program.spec_encode(),
            self.spec_encode().subrange(2240, 2272) == self.token_b_token_program.spec_encode(),
            self.spec_encode().subrange(2272, 2304) == self.pending_admin.spec_encode(),
    {
        let bytes = self.spec_encode();
        self.lemma_identity_len();
        self.lemma_tokens_len();
        self.lemma_shares_len();
        self.lemma_rewards_len();
        self.lemma_accounting_len();
        self.lemma_fees_len();
        self.lemma_streams_len();
        self.lemma_flags_len();
        self.lemma_wiring_len();
        self.lemma_reserved_len();
        let part = self.spec_encode_wiring();
        assert(bytes.subrange(2056, 2304) =~= part);
        lemma_window(bytes, 2056, 248);
        self.token_a_fees_from_rewards_cumulative.lemma_encode_len();
        self.token_b_fees_from_rewards_cumulative.lemma_encode_len();
        self.strategy_lookup_table.lemma_encode_len();
        self.last_swap_uneven_step_timestamp.lemma_encode_len();
        self.farm.lemma_encode_len();
        self.rebalances_cap.lemma_encode_len();
        self.swap_uneven_authority.lemma_encode_len();
        self.token_a_token_program.lemma_encode_len();
        self.token_b_token_program.lemma_encode_len();
        self.pending_admin.lemma_encode_len();
        assert(part.subrange(0, 8) =~= self.token_a_fees_from_rewards_cumulative.spec_encode());
        assert(bytes.subrange(2056, 2304).subrange(0, 8) == bytes.subrange(2056, 2064));
        assert(part.subrange(8, 16) =~= self.token_b_fees_from_rewards_cumulative.spec_encode());
        assert(bytes.subrange(2056, 2304).subrange(8, 16) == bytes.subrange(2064, 2072));
        assert(part.subrange(16, 48) =~= self.strategy_lookup_table.spec_encode());
        assert(bytes.subrange(2056, 2304).subrange(16, 48) == bytes.subrange(2072, 2104));
        assert(part.subrange(48, 56) =~= self.last_swap_uneven_step_timestamp.spec_encode());
        assert(bytes.subrange(2056, 2304).subrange(48, 56) == bytes.subrange(2104, 2112));
        assert(part.subrange(56, 88) =~= self.farm.spec_encode());
        assert(bytes.subrange(2056, 2304).subrange(56, 88) == bytes.subrange(2112, 2144));
        assert(part.subrange(88, 120) =~= self.rebalances_cap.spec_encode());
        assert(bytes.subrange(2056, 2304).subrange(88, 120) == bytes.subrange(2144, 2176));
        assert(part.subrange(120, 152) =~= self.swap_uneven_authority.spec_encode());
        assert(bytes.subrange(2056, 2304).subrange(120, 152) == bytes.subrange(2176, 2208));
        assert(part.subrange(152, 184) =~= self.token_a_token_program.spec_encode());
        assert(bytes.subrange(2056, 2304).subrange(152, 184) == bytes.subrange(2208, 2240));
        assert(part.subrange(184, 216) =~= self.token_b_token_program.spec_encode());
        assert(bytes.subrange(2056, 2304).subrange(184, 216) == bytes.subrange(2240, 2272));
        assert(part.subrange(216, 248) =~= self.pending_admin.spec_encode());
        assert(bytes.subrange(2056, 2304).subrange(216, 248) == bytes.subrange(2272, 2304));
    }

    proof fn lemma_wiring_encoded(bytes: Seq<u8>)
        requires
            bytes.len() == 4056,
        ensures
            Self::spec_decode(bytes).spec_encode_wiring() == bytes.subrange(2056, 2304),
    {
        u64::lemma_encode_decode(bytes.subrange(2056, 2064));
        u64::lemma_encode_decode(bytes.subrange(2064, 2072));
        Address::lemma_encode_decode(bytes.subrange(2072, 2104));
        u64::lemma_encode_decode(bytes.subrange(2104, 2112));
        Address::lemma_encode_decode(bytes.subrange(2112, 2144));
        WithdrawalCaps::lemma_encode_decode(bytes.subrange(2144, 2176));
        Address::lemma_encode_decode(bytes.subrange(2176, 2208));
        Address::lemma_encode_decode(bytes.subrange(2208, 2240));
        Address::lemma_encode_decode(bytes.subrange(2240, 2272));
        Address::lemma_encode_decode(bytes.subrange(2272, 2304));
        assert(Self::spec_decode(bytes).spec_encode_wiring() =~= bytes.subrange(2056, 2304));
    }

    proof fn lemma_wiring_zeroed()
        ensures
            Self::spec_zeroed().spec_encode_wiring() == zeros(248),
    {
        u64::lemma_zeroed();
        u64::lemma_zeroed();
        Address::lemma_zeroed();
        u64::lemma_zeroed();
        Address::lemma_zeroed();
        WithdrawalCaps::lemma_zeroed();
        Address::lemma_zeroed();
        Address::lemma_zeroed();
        Address::lemma_zeroed();
        Address::lemma_zeroed();
        assert(Self::spec_zeroed().spec_encode_wiring() =~= zeros(248));
    }

    proof fn lemma_wiring_len(&self)
        ensures
            self.spec_encode_wiring().len() == 248,
    {
        self.token_a_fees_from_rewards_cumulative.lemma_encode_len();
        self.token_b_fees_from_rewards_cumulative.lemma_encode_len();
        self.strategy_lookup_table.lemma_encode_len();
        self.last_swap_uneven_step_timestamp.lemma_encode_len();
        self.farm.lemma_encode_len();
        self.rebalances_cap.lemma_encode_len();
        self.swap_uneven_authority.lemma_encode_len();
        self.token_a_token_program.lemma_encode_len();
        self.token_b_token_program.lemma_encode_len();
        self.pending_admin.lemma_encode_len();
    }

    /// Where each field of this region lies in the encoding of the record.
    pub proof fn lemma_reserved_placed(&self)
        ensures
            self.spec_encode().subrange(2304, 2312) == self.padding_3.spec_encode(),
            self.spec_encode().subrange(2312, 2520) == self.padding_4.spec_encode(),
            self.spec_encode().subrange(2520, 3032) == self.padding_5.spec_encode(),
            self.spec_encode().subrange(3032, 3544) == self.padding_6.spec_encode(),
            self.spec_encode().subrange(3544, 4056) == self.padding_7.spec_encode(),
    {
        let bytes = self.spec_encode();
        self.lemma_identity_len();
        self.lemma_tokens_len();
        self.lemma_shares_len();
        self.lemma_rewards_len();
        self.lemma_accounting_len();
        self.lemma_fees_len();
        self.lemma_streams_len();
        self.lemma_flags_len();
        self.lemma_wiring_len();
        self.lemma_reserved_len();
        let part = self.spec_encode_reserved();
        assert(bytes.subrange(2304, 4056) =~= part);
        lemma_window(bytes, 2304, 1752);
        self.padding_3.lemma_encode_len();
        self.padding_4.lemma_encode_len();
        self.padding_5.lemma_encode_len();
        self.padding_6.lemma_encode_len();
        self.padding_7.lemma_encode_len();
        assert(part.subrange(0, 8) =~= self.padding_3.spec_encode());
        assert(bytes.subrange(2304, 4056).subrange(0, 8) == bytes.subrange(2304, 2312));
        assert(part.subrange(8, 216) =~= self.padding_4.spec_encode());
        assert(bytes.subrange(2304, 4056).subrange(8, 216) == bytes.subrange(2312, 2520));
        assert(part.subrange(216, 728) =~= self.padding_5.spec_encode());
        assert(bytes.subrange(2304, 4056).subrange(216, 728) == bytes.subrange(2520, 3032));
        assert(part.subrange(728, 1240) =~= self.padding_6.spec_encode());
        assert(bytes.subrange(2304, 4056).subrange(728, 1240) == bytes.subrange(3032, 3544));
        assert(part.subrange(1240, 1752) =~= self.padding_7.spec_encode());
        assert(bytes.subrange(2304, 4056).subrange(1240, 1752) == bytes.subrange(3544, 4056));
    }

    proof fn lemma_reserved_encoded(bytes: Seq<u8>)
        requires
            bytes.len() == 4056,
        ensures
            Self::spec_decode(bytes).spec_encode_reserved() == bytes.subrange(2304, 4056),
    {
        u64::lemma_encode_decode(bytes.subrange(2304, 2312));
        <[u128; 13]>::lemma_encode_decode(bytes.subrange(2312, 2520));
        <[u128; 32]>::lemma_encode_decode(bytes.subrange(2520, 3032));
        <[u128; 32]>::lemma_encode_decode(bytes.subrange(3032, 3544));
        <[u128; 32]>::lemma_encode_decode(bytes.subrange(3544, 4056));
        assert(Self::spec_decode(bytes).spec_encode_reserved() =~= bytes.subrange(2304, 4056));
    }

    proof fn lemma_reserved_zeroed()
        ensures
            Self::spec_zeroed().spec_encode_reserved() == zeros(1752),
    {
        u64::lemma_zeroed();
        <[u128; 13]>::lemma_zeroed();
        <[u128; 32]>::lemma_zeroed();
        <[u128; 32]>::lemma_zeroed();
        <[u128; 32]>::lemma_zeroed();
        assert(Self::spec_zeroed().spec_encode_reserved() =~= zeros(1752));
    }

    proof fn lemma_reserved_len(&self)
        ensures
            self.spec_encode_reserved().len() == 1752,
    {
        self.padding_3.lemma_encode_len();
        self.padding_4.lemma_encode_len();
        self.padding_5.lemma_encode_len();
        self.padding_6.lemma_encode_len();
        self.padding_7.lemma_encode_len();
    }
}

impl Layout for WhirlpoolStrategy {
    open spec fn spec_size() -> nat {
        4056
    }

    open spec fn spec_encode(&self) -> Seq<u8> {
        self.spec_encode_identity()
            + self.spec_encode_tokens()
            + self.spec_encode_shares()
            + self.spec_encode_rewards()
            + self.spec_encode_accounting()
            + self.spec_encode_fees()
            + self.spec_encode_streams()
            + self.spec_encode_flags()
            + self.spec_encode_wiring()
            + self.spec_encode_reserved()
    }

    open spec fn spec_decode(bytes: Seq<u8>) -> Self {
        WhirlpoolStrategy {
            admin_authority: Address::spec_decode(bytes.subrange(0, 32)),
            global_config: Address::spec_decode(bytes.subrange(32, 64)),
            base_vault_authority: Address::spec_decode(bytes.subrange(64, 96)),
            base_vault_authority_bump: u64::spec_decode(bytes.subrange(96, 104)),
            pool: Address::spec_decode(bytes.subrange(104, 136)),
            pool_token_vault_a: Address::spec_decode(bytes.subrange(136, 168)),
            pool_token_vault_b: Address::spec_decode(bytes.subrange(168, 200)),
            tick_array_lower: Address::spec_decode(bytes.subrange(200, 232)),
            tick_array_upper: Address::spec_decode(bytes.subrange(232, 264)),
            position: Address::spec_decode(bytes.subrange(264, 296)),
            position_mint: Address::spec_decode(bytes.subrange(296, 328)),
            position_metadata: Address::spec_decode(bytes.subrange(328, 360)),
            position_token_account: Address::spec_decode(bytes.subrange(360, 392)),
            token_a_vault: Address::spec_decode(bytes.subrange(392, 424)),
            token_b_vault: Address::spec_decode(bytes.subrange(424, 456)),
            deprecated_0: <[Address; 2]>::spec_decode(bytes.subrange(456, 520)),
            deprecated_1: <[u64; 2]>::spec_decode(bytes.subrange(520, 536)),
            token_a_mint: Address::spec_decode(bytes.subrange(536, 568)),
            token_b_mint: Address::spec_decode(bytes.subrange(568, 600)),
            token_a_mint_decimals: u64::spec_decode(bytes.subrange(600, 608)),
            token_b_mint_decimals: u64::spec_decode(bytes.subrange(608, 616)),
            token_a_amounts: u64::spec_decode(bytes.subrange(616, 624)),
            token_b_amounts: u64::spec_decode(bytes.subrange(624, 632)),
            token_a_collateral_id: u64::spec_decode(bytes.subrange(632, 640)),
            token_b_collateral_id: u64::spec_decode(bytes.subrange(640, 648)),
            scope_prices: Address::spec_decode(bytes.subrange(648, 680)),
            deprecated_2: Address::spec_decode(bytes.subrange(680, 712)),
            shares_mint: Address::spec_decode(bytes.subrange(712, 744)),
            shares_mint_decimals: u64::spec_decode(bytes.subrange(744, 752)),
            shares_mint_authority: Address::spec_decode(bytes.subrange(752, 784)),
            shares_mint_authority_bump: u64::spec_decode(bytes.subrange(784, 792)),
            shares_issued: u64::spec_decode(bytes.subrange(792, 800)),
            status: u64::spec_decode(bytes.subrange(800, 808)),
            reward_0_amount: u64::spec_decode(bytes.subrange(808, 816)),
            reward_0_vault: Address::spec_decode(bytes.subrange(816, 848)),
            reward_0_collateral_id: u64::spec_decode(bytes.subrange(848, 856)),
            reward_0_decimals: u64::spec_decode(bytes.subrange(856, 864)),
            reward_1_amount: u64::spec_decode(bytes.subrange(864, 872)),
            reward_1_vault: Address::spec_decode(bytes.subrange(872, 904)),
            reward_1_collateral_id: u64::spec_decode(bytes.subrange(904, 912)),
            reward_1_decimals: u64::spec_decode(bytes.subrange(912, 920)),
            reward_2_amount: u64::spec_decode(bytes.subrange(920, 928)),
            reward_2_vault: Address::spec_decode(bytes.subrange(928, 960)),
            reward_2_collateral_id: u64::spec_decode(bytes.subrange(960, 968)),
            reward_2_decimals: u64::spec_decode(bytes.subrange(968, 976)),
            deposit_cap_usd: u64::spec_decode(bytes.subrange(976, 984)),
            fees_a_cumulative: u64::spec_decode(bytes.subrange(984, 992)),
            fees_b_cumulative: u64::spec_decode(bytes.subrange(992, 1000)),
            reward_0_amount_cumulative: u64::spec_decode(bytes.subrange(1000, 1008)),
            reward_1_amount_cumulative: u64::spec_decode(bytes.subrange(1008, 1016)),
            reward_2_amount_cumulative: u64::spec_decode(bytes.subrange(1016, 1024)),
            deposit_cap_usd_per_ixn: u64::spec_decode(bytes.subrange(1024, 1032)),
            withdrawal_cap_a: WithdrawalCaps::spec_decode(bytes.subrange(1032, 1064)),
            withdrawal_cap_b: WithdrawalCaps::spec_decode(bytes.subrange(1064, 1096)),
            max_price_deviation_bps: u64::spec_decode(bytes.subrange(1096, 1104)),
            swap_vault_max_slippage_bps: u32::spec_decode(bytes.subrange(1104, 1108)),
            swap_vault_max_slippage_from_reference_bps: u32::spec_decode(bytes.subrange(1108, 1112)),
            strategy_type: u64::spec_decode(bytes.subrange(1112, 1120)),
            padding_0: u64::spec_decode(bytes.subrange(1120, 1128)),
            withdraw_fee: u64::spec_decode(bytes.subrange(1128, 1136)),
            fees_fee: u64::spec_decode(bytes.subrange(1136, 1144)),
            reward_0_fee: u64::spec_decode(bytes.subrange(1144, 1152)),
            reward_1_fee: u64::spec_decode(bytes.subrange(1152, 1160)),
            reward_2_fee: u64::spec_decode(bytes.subrange(1160, 1168)),
            position_timestamp: u64::spec_decode(bytes.subrange(1168, 1176)),
            kamino_rewards: <[KaminoRewardInfo; 3]>::spec_decode(bytes.subrange(1176, 1536)),
            strategy_dex: u64::spec_decode(bytes.subrange(1536, 1544)),
            raydium_protocol_position_or_base_vault_authority: Address::spec_decode(bytes.subrange(1544, 1576)),
            allow_deposit_without_invest: u64::spec_decode(bytes.subrange(1576, 1584)),
            raydium_pool_config_or_base_vault_authority: Address::spec_decode(bytes.subrange(1584, 1616)),
            deposit_blocked: u8::spec_decode(bytes.subrange(1616, 1617)),
            creation_status: u8::spec_decode(bytes.subrange(1617, 1618)),
            invest_blocked: u8::spec_decode(bytes.subrange(1618, 1619)),
            share_calculation_method: u8::spec_decode(bytes.subrange(1619, 1620)),
            withdraw_blocked: u8::spec_decode(bytes.subrange(1620, 1621)),
            reserved_flag_2: u8::spec_decode(bytes.subrange(1621, 1622)),
            local_admin_blocked: u8::spec_decode(bytes.subrange(1622, 1623)),
            flash_vault_swap_allowed: u8::spec_decode(bytes.subrange(1623, 1624)),
            reference_swap_price_a: Price::spec_decode(bytes.subrange(1624, 1640)),
            reference_swap_price_b: Price::spec_decode(bytes.subrange(1640, 1656)),
            is_community: u8::spec_decode(bytes.subrange(1656, 1657)),
            rebalance_type: u8::spec_decode(bytes.subrange(1657, 1658)),
            padding_1: <[u8; 6]>::spec_decode(bytes.subrange(1658, 1664)),
            rebalance_raw: RebalanceRaw::spec_decode(bytes.subrange(1664, 2049)),
            padding_2: <[u8; 7]>::spec_decode(bytes.subrange(2049, 2056)),
            token_a_fees_from_rewards_cumulative: u64::spec_decode(bytes.subrange(2056, 2064)),
            token_b_fees_from_rewards_cumulative: u64::spec_decode(bytes.subrange(2064, 2072)),
            strategy_lookup_table: Address::spec_decode(bytes.subrange(2072, 2104)),
            last_swap_uneven_step_timestamp: u64::spec_decode(bytes.subrange(2104, 2112)),
            farm: Address::spec_decode(bytes.subrange(2112, 2144)),
            rebalances_cap: WithdrawalCaps::spec_decode(bytes.subrange(2144, 2176)),
            swap_uneven_authority: Address::spec_decode(bytes.subrange(2176, 2208)),
            token_a_token_program: Address::spec_decode(bytes.subrange(2208, 2240)),
            token_b_token_program: Address::spec_decode(bytes.subrange(2240, 2272)),
            pending_admin: Address::spec_decode(bytes.subrange(2272, 2304)),
            padding_3: u64::spec_decode(bytes.subrange(2304, 2312)),
            padding_4: <[u128; 13]>::spec_decode(bytes.subrange(2312, 2520)),
            padding_5: <[u128; 32]>::spec_decode(bytes.subrange(2520, 3032)),
            padding_6: <[u128; 32]>::spec_decode(bytes.subrange(3032, 3544)),
            padding_7: <[u128; 32]>::spec_decode(bytes.subrange(3544, 4056)),
        }
    }

    open spec fn spec_zeroed() -> Self {
        WhirlpoolStrategy {
            admin_authority: Address::spec_zeroed(),
            global_config: Address::spec_zeroed(),
            base_vault_authority: Address::spec_zeroed(),
            base_vault_authority_bump: u64::spec_zeroed(),
            pool: Address::spec_zeroed(),
            pool_token_vault_a: Address::spec_zeroed(),
            pool_token_vault_b: Address::spec_zeroed(),
            tick_array_lower: Address::spec_zeroed(),
            tick_array_upper: Address::spec_zeroed(),
            position: Address::spec_zeroed(),
            position_mint: Address::spec_zeroed(),
            position_metadata: Address::spec_zeroed(),
            position_token_account: Address::spec_zeroed(),
            token_a_vault: Address::spec_zeroed(),
            token_b_vault: Address::spec_zeroed(),
            deprecated_0: <[Address; 2]>::spec_zeroed(),
            deprecated_1: <[u64; 2]>::spec_zeroed(),
            token_a_mint: Address::spec_zeroed(),
            token_b_mint: Address::spec_zeroed(),
            token_a_mint_decimals: u64::spec_zeroed(),
            token_b_mint_decimals: u64::spec_zeroed(),
            token_a_amounts: u64::spec_zeroed(),
            token_b_amounts: u64::spec_zeroed(),
            token_a_collateral_id: u64::spec_zeroed(),
            token_b_collateral_id: u64::spec_zeroed(),
            scope_prices: Address::spec_zeroed(),
            deprecated_2: Address::spec_zeroed(),
            shares_mint: Address::spec_zeroed(),
            shares_mint_decimals: u64::spec_zeroed(),
            shares_mint_authority: Address::spec_zeroed(),
            shares_mint_authority_bump: u64::spec_zeroed(),
            shares_issued: u64::spec_zeroed(),
            status: u64::spec_zeroed(),
            reward_0_amount: u64::spec_zeroed(),
            reward_0_vault: Address::spec_zeroed(),
            reward_0_collateral_id: u64::spec_zeroed(),
            reward_0_decimals: u64::spec_zeroed(),
            reward_1_amount: u64::spec_zeroed(),
            reward_1_vault: Address::spec_zeroed(),
            reward_1_collateral_id: u64::spec_zeroed(),
            reward_1_decimals: u64::spec_zeroed(),
            reward_2_amount: u64::spec_zeroed(),
            reward_2_vault: Address::spec_zeroed(),
            reward_2_collateral_id: u64::spec_zeroed(),
            reward_2_decimals: u64::spec_zeroed(),
            deposit_cap_usd: u64::spec_zeroed(),
            fees_a_cumulative: u64::spec_zeroed(),
            fees_b_cumulative: u64::spec_zeroed(),
            reward_0_amount_cumulative: u64::spec_zeroed(),
            reward_1_amount_cumulative: u64::spec_zeroed(),
            reward_2_amount_cumulative: u64::spec_zeroed(),
            deposit_cap_usd_per_ixn: u64::spec_zeroed(),
            withdrawal_cap_a: WithdrawalCaps::spec_zeroed(),
            withdrawal_cap_b: WithdrawalCaps::spec_zeroed(),
            max_price_deviation_bps: u64::spec_zeroed(),
            swap_vault_max_slippage_bps: u32::spec_zeroed(),
            swap_vault_max_slippage_from_reference_bps: u32::spec_zeroed(),
            strategy_type: u64::spec_zeroed(),
            padding_0: u64::spec_zeroed(),
            withdraw_fee: u64::spec_zeroed(),
            fees_fee: u64::spec_zeroed(),
            reward_0_fee: u64::spec_zeroed(),
            reward_1_fee: u64::spec_zeroed(),
            reward_2_fee: u64::spec_zeroed(),
            position_timestamp: u64::spec_zeroed(),
            kamino_rewards: <[KaminoRewardInfo; 3]>::spec_zeroed(),
            strategy_dex: u64::spec_zeroed(),
            raydium_protocol_position_or_base_vault_authority: Address::spec_zeroed(),
            allow_deposit_without_invest: u64::spec_zeroed(),
            raydium_pool_config_or_base_vault_authority: Address::spec_zeroed(),
            deposit_blocked: u8::spec_zeroed(),
            creation_status: u8::spec_zeroed(),
            invest_blocked: u8::spec_zeroed(),
            share_calculation_method: u8::spec_zeroed(),
            withdraw_blocked: u8::spec_zeroed(),
            reserved_flag_2: u8::spec_zeroed(),
            local_admin_blocked: u8::spec_zeroed(),
            flash_vault_swap_allowed: u8::spec_zeroed(),
            reference_swap_price_a: Price::spec_zeroed(),
            reference_swap_price_b: Price::spec_zeroed(),
            is_community: u8::spec_zeroed(),
            rebalance_type: u8::spec_zeroed(),
            padding_1: <[u8; 6]>::spec_zeroed(),
            rebalance_raw: RebalanceRaw::spec_zeroed(),
            padding_2: <[u8; 7]>::spec_zeroed(),
            token_a_fees_from_rewards_cumulative: u64::spec_zeroed(),
            token_b_fees_from_rewards_cumulative: u64::spec_zeroed(),
            strategy_lookup_table: Address::spec_zeroed(),
            last_swap_uneven_step_timestamp: u64::spec_zeroed(),
            farm: Address::spec_zeroed(),
            rebalances_cap: WithdrawalCaps::spec_zeroed(),
            swap_uneven_authority: Address::spec_zeroed(),
            token_a_token_program: Address::spec_zeroed(),
            token_b_token_program: Address::spec_zeroed(),
            pending_admin: Address::spec_zeroed(),
            padding_3: u64::spec_zeroed(),
            padding_4: <[u128; 13]>::spec_zeroed(),
            padding_5: <[u128; 32]>::spec_zeroed(),
            padding_6: <[u128; 32]>::spec_zeroed(),
            padding_7: <[u128; 32]>::spec_zeroed(),
        }
    }

    proof fn lemma_encode_len(&self) {
        self.lemma_identity_len();
        self.lemma_tokens_len();
        self.lemma_shares_len();
        self.lemma_rewards_len();
        self.lemma_accounting_len();
        self.lemma_fees_len();
        self.lemma_streams_len();
        self.lemma_flags_len();
        self.lemma_wiring_len();
        self.lemma_reserved_len();
    }

    proof fn lemma_decode_encode(&self) {
        self.lemma_identity_placed();
        self.lemma_tokens_placed();
        self.lemma_shares_placed();
        self.lemma_rewards_placed();
        self.lemma_accounting_placed();
        self.lemma_fees_placed();
        self.lemma_streams_placed();
        self.lemma_flags_placed();
        self.lemma_wiring_placed();
        self.lemma_reserved_placed();
        self.admin_authority.lemma_decode_encode();
        self.global_config.lemma_decode_encode();
        self.base_vault_authority.lemma_decode_encode();
        self.base_vault_authority_bump.lemma_decode_encode();
        self.pool.lemma_decode_encode();
        self.pool_token_vault_a.lemma_decode_encode();
        self.pool_token_vault_b.lemma_decode_encode();
        self.tick_array_lower.lemma_decode_encode();
        self.tick_array_upper.lemma_decode_encode();
        self.position.lemma_decode_encode();
        self.position_mint.lemma_decode_encode();
        self.position_metadata.lemma_decode_encode();
        self.position_token_account.lemma_decode_encode();
        self.token_a_vault.lemma_decode_encode();
        self.token_b_vault.lemma_decode_encode();
        self.deprecated_0.lemma_decode_encode();
        self.deprecated_1.lemma_decode_encode();
        self.token_a_mint.lemma_decode_encode();
        self.token_b_mint.lemma_decode_encode();
        self.token_a_mint_decimals.lemma_decode_encode();
        self.token_b_mint_decimals.lemma_decode_encode();
        self.token_a_amounts.lemma_decode_encode();
        self.token_b_amounts.lemma_decode_encode();
        self.token_a_collateral_id.lemma_decode_encode();
        self.token_b_collateral_id.lemma_decode_encode();
        self.scope_prices.lemma_decode_encode();
        self.deprecated_2.lemma_decode_encode();
        self.shares_mint.lemma_decode_encode();
        self.shares_mint_decimals.lemma_decode_encode();
        self.shares_mint_authority.lemma_decode_encode();
        self.shares_mint_authority_bump.lemma_decode_encode();
        self.shares_issued.lemma_decode_encode();
        self.status.lemma_decode_encode();
        self.reward_0_amount.lemma_decode_encode();
        self.reward_0_vault.lemma_decode_encode();
        self.reward_0_collateral_id.lemma_decode_encode();
        self.reward_0_decimals.lemma_decode_encode();
        self.reward_1_amount.lemma_decode_encode();
        self.reward_1_vault.lemma_decode_encode();
        self.reward_1_collateral_id.lemma_decode_encode();
        self.reward_1_decimals.lemma_decode_encode();
        self.reward_2_amount.lemma_decode_encode();
        self.reward_2_vault.lemma_decode_encode();
        self.reward_2_collateral_id.lemma_decode_encode();
        self.reward_2_decimals.lemma_decode_encode();
        self.deposit_cap_usd.lemma_decode_encode();
        self.fees_a_cumulative.lemma_decode_encode();
        self.fees_b_cumulative.lemma_decode_encode();
        self.reward_0_amount_cumulative.lemma_decode_encode();
        self.reward_1_amount_cumulative.lemma_decode_encode();
        self.reward_2_amount_cumulative.lemma_decode_encode();
        self.deposit_cap_usd_per_ixn.lemma_decode_encode();
        self.withdrawal_cap_a.lemma_decode_encode();
        self.withdrawal_cap_b.lemma_decode_encode();
        self.max_price_deviation_bps.lemma_decode_encode();
        self.swap_vault_max_slippage_bps.lemma_decode_encode();
        self.swap_vault_max_slippage_from_reference_bps.lemma_decode_encode();
        self.strategy_type.lemma_decode_encode();
        self.padding_0.lemma_decode_encode();
        self.withdraw_fee.lemma_decode_encode();
        self.fees_fee.lemma_decode_encode();
        self.reward_0_fee.lemma_decode_encode();
        self.reward_1_fee.lemma_decode_encode();
        self.reward_2_fee.lemma_decode_encode();
        self.position_timestamp.lemma_decode_encode();
        self.kamino_rewards.lemma_decode_encode();
        self.strategy_dex.lemma_decode_encode();
        self.raydium_protocol_position_or_base_vault_authority.lemma_decode_encode();
        self.allow_deposit_without_invest.lemma_decode_encode();
        self.raydium_pool_config_or_base_vault_authority.lemma_decode_encode();
        self.deposit_blocked.lemma_decode_encode();
        self.creation_status.lemma_decode_encode();
        self.invest_blocked.lemma_decode_encode();
        self.share_calculation_method.lemma_decode_encode();
        self.withdraw_blocked.lemma_decode_encode();
        self.reserved_flag_2.lemma_decode_encode();
        self.local_admin_blocked.lemma_decode_encode();
        self.flash_vault_swap_allowed.lemma_decode_encode();
        self.reference_swap_price_a.lemma_decode_encode();
        self.reference_swap_price_b.lemma_decode_encode();
        self.is_community.lemma_decode_encode();
        self.rebalance_type.lemma_decode_encode();
        self.padding_1.lemma_decode_encode();
        self.rebalance_raw.lemma_decode_encode();
        self.padding_2.lemma_decode_encode();
        self.token_a_fees_from_rewards_cumulative.lemma_decode_encode();
        self.token_b_fees_from_rewards_cumulative.lemma_decode_encode();
        self.strategy_lookup_table.lemma_decode_encode();
        self.last_swap_uneven_step_timestamp.lemma_decode_encode();
        self.farm.lemma_decode_encode();
        self.rebalances_cap.lemma_decode_encode();
        self.swap_uneven_authority.lemma_decode_encode();
        self.token_a_token_program.lemma_decode_encode();
        self.token_b_token_program.lemma_decode_encode();
        self.pending_admin.lemma_decode_encode();
        self.padding_3.lemma_decode_encode();
        self.padding_4.lemma_decode_encode();
        self.padding_5.lemma_decode_encode();
        self.padding_6.lemma_decode_encode();
        self.padding_7.lemma_decode_encode();
    }

    proof fn lemma_encode_decode(bytes: Seq<u8>) {
        Self::lemma_identity_encoded(bytes);
        Self::lemma_tokens_encoded(bytes);
        Self::lemma_shares_encoded(bytes);
        Self::lemma_rewards_encoded(bytes);
        Self::lemma_accounting_encoded(bytes);
        Self::lemma_fees_encoded(bytes);
        Self::lemma_streams_encoded(bytes);
        Self::lemma_flags_encoded(bytes);
        Self::lemma_wiring_encoded(bytes);
        Self::lemma_reserved_encoded(bytes);
        assert(Self::spec_decode(bytes).spec_encode() =~= bytes);
    }

    proof fn lemma_zeroed() {
        Self::lemma_identity_zeroed();
        Self::lemma_tokens_zeroed();
        Self::lemma_shares_zeroed();
        Self::lemma_rewards_zeroed();
        Self::lemma_accounting_zeroed();
        Self::lemma_fees_zeroed();
        Self::lemma_streams_zeroed();
        Self::lemma_flags_zeroed();
        Self::lemma_wiring_zeroed();
        Self::lemma_reserved_zeroed();
        assert(Self::spec_zeroed().spec_encode() =~= zeros(4056));
    }

    fn size() -> (n: usize) {
        4056
    }

    fn zeroed() -> (r: Self) {
        WhirlpoolStrategy {
            admin_authority: Address::zeroed(),
            global_config: Address::zeroed(),
            base_vault_authority: Address::zeroed(),
            base_vault_authority_bump: u64::zeroed(),
            pool: Address::zeroed(),
            pool_token_vault_a: Address::zeroed(),
            pool_token_vault_b: Address::zeroed(),
            tick_array_lower: Address::zeroed(),
            tick_array_upper: Address::zeroed(),
            position: Address::zeroed(),
            position_mint: Address::zeroed(),
            position_metadata: Address::zeroed(),
            position_token_account: Address::zeroed(),
            token_a_vault: Address::zeroed(),
            token_b_vault: Address::zeroed(),
            deprecated_0: <[Address; 2]>::zeroed(),
            deprecated_1: <[u64; 2]>::zeroed(),
            token_a_mint: Address::zeroed(),
            token_b_mint: Address::zeroed(),
            token_a_mint_decimals: u64::zeroed(),
            token_b_mint_decimals: u64::zeroed(),
            token_a_amounts: u64::zeroed(),
            token_b_amounts: u64::zeroed(),
            token_a_collateral_id: u64::zeroed(),
            token_b_collateral_id: u64::zeroed(),
            scope_prices: Address::zeroed(),
            deprecated_2: Address::zeroed(),
            shares_mint: Address::zeroed(),
            shares_mint_decimals: u64::zeroed(),
            shares_mint_authority: Address::zeroed(),
            shares_mint_authority_bump: u64::zeroed(),
            shares_issued: u64::zeroed(),
            status: u64::zeroed(),
            reward_0_amount: u64::zeroed(),
            reward_0_vault: Address::zeroed(),
            reward_0_collateral_id: u64::zeroed(),
            reward_0_decimals: u64::zeroed(),
            reward_1_amount: u64::zeroed(),
            reward_1_vault: Address::zeroed(),
            reward_1_collateral_id: u64::zeroed(),
            reward_1_decimals: u64::zeroed(),
            reward_2_amount: u64::zeroed(),
            reward_2_vault: Address::zeroed(),
            reward_2_collateral_id: u64::zeroed(),
            reward_2_decimals: u64::zeroed(),
            deposit_cap_usd: u64::zeroed(),
            fees_a_cumulative: u64::zeroed(),
            fees_b_cumulative: u64::zeroed(),
            reward_0_amount_cumulative: u64::zeroed(),
            reward_1_amount_cumulative: u64::zeroed(),
            reward_2_amount_cumulative: u64::zeroed(),
            deposit_cap_usd_per_ixn: u64::zeroed(),
            withdrawal_cap_a: WithdrawalCaps::zeroed(),
            withdrawal_cap_b: WithdrawalCaps::zeroed(),
            max_price_deviation_bps: u64::zeroed(),
            swap_vault_max_slippage_bps: u32::zeroed(),
            swap_vault_max_slippage_from_reference_bps: u32::zeroed(),
            strategy_type: u64::zeroed(),
            padding_0: u64::zeroed(),
            withdraw_fee: u64::zeroed(),
            fees_fee: u64::zeroed(),
            reward_0_fee: u64::zeroed(),
            reward_1_fee: u64::zeroed(),
            reward_2_fee: u64::zeroed(),
            position_timestamp: u64::zeroed(),
            kamino_rewards: <[KaminoRewardInfo; 3]>::zeroed(),
            strategy_dex: u64::zeroed(),
            raydium_protocol_position_or_base_vault_authority: Address::zeroed(),
            allow_deposit_without_invest: u64::zeroed(),
            raydium_pool_config_or_base_vault_authority: Address::zeroed(),
            deposit_blocked: u8::zeroed(),
            creation_status: u8::zeroed(),
            invest_blocked: u8::zeroed(),
            share_calculation_method: u8::zeroed(),
            withdraw_blocked: u8::zeroed(),
            reserved_flag_2: u8::zeroed(),
            local_admin_blocked: u8::zeroed(),
            flash_vault_swap_allowed: u8::zeroed(),
            reference_swap_price_a: Price::zeroed(),
            reference_swap_price_b: Price::zeroed(),
            is_community: u8::zeroed(),
            rebalance_type: u8::zeroed(),
            padding_1: <[u8; 6]>::zeroed(),
            rebalance_raw: RebalanceRaw::zeroed(),
            padding_2: <[u8; 7]>::zeroed(),
            token_a_fees_from_rewards_cumulative: u64::zeroed(),
            token_b_fees_from_rewards_cumulative: u64::zeroed(),
            strategy_lookup_table: Address::zeroed(),
            last_swap_uneven_step_timestamp: u64::zeroed(),
            farm: Address::zeroed(),
            rebalances_cap: WithdrawalCaps::zeroed(),
            swap_uneven_authority: Address::zeroed(),
            token_a_token_program: Address::zeroed(),
            token_b_token_program: Address::zeroed(),
            pending_admin: Address::zeroed(),
            padding_3: u64::zeroed(),
            padding_4: <[u128; 13]>::zeroed(),
            padding_5: <[u128; 32]>::zeroed(),
            padding_6: <[u128; 32]>::zeroed(),
            padding_7: <[u128; 32]>::zeroed(),
        }
    }

    fn encode_into(&self, out: &mut Vec<u8>) {
        self.encode_identity_into(out);
        self.encode_tokens_into(out);
        self.encode_shares_into(out);
        self.encode_rewards_into(out);
        self.encode_accounting_into(out);
        self.encode_fees_into(out);
        self.encode_streams_into(out);
        self.encode_flags_into(out);
        self.encode_wiring_into(out);
        self.encode_reserved_into(out);
        assert(out@ =~= old(out)@ + self.spec_encode());
    }

    #[verifier::rlimit(100)]
    fn decode_at(bytes: &[u8], at: usize) -> (r: Self) {
        let len = bytes.len();
        proof {
            lemma_window(bytes@, at as int, 4056);
        }
        WhirlpoolStrategy {
            admin_authority: Address::decode_at(bytes, at),
            global_config: Address::decode_at(bytes, at + 32),
            base_vault_authority: Address::decode_at(bytes, at + 64),
            base_vault_authority_bump: u64::decode_at(bytes, at + 96),
            pool: Address::decode_at(bytes, at + 104),
            pool_token_vault_a: Address::decode_at(bytes, at + 136),
            pool_token_vault_b: Address::decode_at(bytes, at + 168),
            tick_array_lower: Address::decode_at(bytes, at + 200),
            tick_array_upper: Address::decode_at(bytes, at + 232),
            position: Address::decode_at(bytes, at + 264),
            position_mint: Address::decode_at(bytes, at + 296),
            position_metadata: Address::decode_at(bytes, at + 328),
            position_token_account: Address::decode_at(bytes, at + 360),
            token_a_vault: Address::decode_at(bytes, at + 392),
            token_b_vault: Address::decode_at(bytes, at + 424),
            deprecated_0: <[Address; 2]>::decode_at(bytes, at + 456),
            deprecated_1: <[u64; 2]>::decode_at(bytes, at + 520),
            token_a_mint: Address::decode_at(bytes, at + 536),
            token_b_mint: Address::decode_at(bytes, at + 568),
            token_a_mint_decimals: u64::decode_at(bytes, at + 600),
            token_b_mint_decimals: u64::decode_at(bytes, at + 608),
            token_a_amounts: u64::decode_at(bytes, at + 616),
            token_b_amounts: u64::decode_at(bytes, at + 624),
            token_a_collateral_id: u64::decode_at(bytes, at + 632),
            token_b_collateral_id: u64::decode_at(bytes, at + 640),
            scope_prices: Address::decode_at(bytes, at + 648),
            deprecated_2: Address::decode_at(bytes, at + 680),
            shares_mint: Address::decode_at(bytes, at + 712),
            shares_mint_decimals: u64::decode_at(bytes, at + 744),
            shares_mint_authority: Address::decode_at(bytes, at + 752),
            shares_mint_authority_bump: u64::decode_at(bytes, at + 784),
            shares_issued: u64::decode_at(bytes, at + 792),
            status: u64::decode_at(bytes, at + 800),
            reward_0_amount: u64::decode_at(bytes, at + 808),
            reward_0_vault: Address::decode_at(bytes, at + 816),
            reward_0_collateral_id: u64::decode_at(bytes, at + 848),
            reward_0_decimals: u64::decode_at(bytes, at + 856),
            reward_1_amount: u64::decode_at(bytes, at + 864),
            reward_1_vault: Address::decode_at(bytes, at + 872),
            reward_1_collateral_id: u64::decode_at(bytes, at + 904),
            reward_1_decimals: u64::decode_at(bytes, at + 912),
            reward_2_amount: u64::decode_at(bytes, at + 920),
            reward_2_vault: Address::decode_at(bytes, at + 928),
            reward_2_collateral_id: u64::decode_at(bytes, at + 960),
            reward_2_decimals: u64::decode_at(bytes, at + 968),
            deposit_cap_usd: u64::decode_at(bytes, at + 976),
            fees_a_cumulative: u64::decode_at(bytes, at + 984),
            fees_b_cumulative: u64::decode_at(bytes, at + 992),
            reward_0_amount_cumulative: u64::decode_at(bytes, at + 1000),
            reward_1_amount_cumulative: u64::decode_at(bytes, at + 1008),
            reward_2_amount_cumulative: u64::decode_at(bytes, at + 1016),
            deposit_cap_usd_per_ixn: u64::decode_at(bytes, at + 1024),
            withdrawal_cap_a: WithdrawalCaps::decode_at(bytes, at + 1032),
            withdrawal_cap_b: WithdrawalCaps::decode_at(bytes, at + 1064),
            max_price_deviation_bps: u64::decode_at(bytes, at + 1096),
            swap_vault_max_slippage_bps: u32::decode_at(bytes, at + 1104),
            swap_vault_max_slippage_from_reference_bps: u32::decode_at(bytes, at + 1108),
            strategy_type: u64::decode_at(bytes, at + 1112),
            padding_0: u64::decode_at(bytes, at + 1120),
            withdraw_fee: u64::decode_at(bytes, at + 1128),
            fees_fee: u64::decode_at(bytes, at + 1136),
            reward_0_fee: u64::decode_at(bytes, at + 1144),
            reward_1_fee: u64::decode_at(bytes, at + 1152),
            reward_2_fee: u64::decode_at(bytes, at + 1160),
            position_timestamp: u64::decode_at(bytes, at + 1168),
            kamino_rewards: <[KaminoRewardInfo; 3]>::decode_at(bytes, at + 1176),
            strategy_dex: u64::decode_at(bytes, at + 1536),
            raydium_protocol_position_or_base_vault_authority: Address::decode_at(bytes, at + 1544),
            allow_deposit_without_invest: u64::decode_at(bytes, at + 1576),
            raydium_pool_config_or_base_vault_authority: Address::decode_at(bytes, at + 1584),
            deposit_blocked: u8::decode_at(bytes, at + 1616),
            creation_status: u8::decode_at(bytes, at + 1617),
            invest_blocked: u8::decode_at(bytes, at + 1618),
            share_calculation_method: u8::decode_at(bytes, at + 1619),
            withdraw_blocked: u8::decode_at(bytes, at + 1620),
            reserved_flag_2: u8::decode_at(bytes, at + 1621),
            local_admin_blocked: u8::decode_at(bytes, at + 1622),
            flash_vault_swap_allowed: u8::decode_at(bytes, at + 1623),
            reference_swap_price_a: Price::decode_at(bytes, at + 1624),
            reference_swap_price_b: Price::decode_at(bytes, at + 1640),
            is_community: u8::decode_at(bytes, at + 1656),
            rebalance_type: u8::decode_at(bytes, at + 1657),
            padding_1: <[u8; 6]>::decode_at(bytes, at + 1658),
            rebalance_raw: RebalanceRaw::decode_at(bytes, at + 1664),
            padding_2: <[u8; 7]>::decode_at(bytes, at + 2049),
            token_a_fees_from_rewards_cumulative: u64::decode_at(bytes, at + 2056),
            token_b_fees_from_rewards_cumulative: u64::decode_at(bytes, at + 2064),
            strategy_lookup_table: Address::decode_at(bytes, at + 2072),
            last_swap_uneven_step_timestamp: u64::decode_at(bytes, at + 2104),
            farm: Address::decode_at(bytes, at + 2112),
            rebalances_cap: WithdrawalCaps::decode_at(bytes, at + 2144),
            swap_uneven_authority: Address::decode_at(bytes, at + 2176),
            token_a_token_program: Address::decode_at(bytes, at + 2208),
            token_b_token_program: Address::decode_at(bytes, at + 2240),
            pending_admin: Address::decode_at(bytes, at + 2272),
            padding_3: u64::decode_at(bytes, at + 2304),
            padding_4: <[u128; 13]>::decode_at(bytes, at + 2312),
            padding_5: <[u128; 32]>::decode_at(bytes, at + 2520),
            padding_6: <[u128; 32]>::decode_at(bytes, at + 3032),
            padding_7: <[u128; 32]>::decode_at(bytes, at + 3544),
        }
    }
}

impl Record for WhirlpoolStrategy {
    open spec fn spec_discriminator() -> Seq<u8> {
        seq![190u8, 178, 231, 184, 49, 186, 103, 13]
    }

    open spec fn padding_is_zero(&self) -> bool {
        &&& self.padding_0 == 0
        &&& filled_with(self.padding_1@, 0u8)
        &&& filled_with(self.padding_2@, 0u8)
        &&& self.padding_3 == 0
        &&& filled_with(self.padding_4@, 0u128)
        &&& filled_with(self.padding_5@, 0u128)
        &&& filled_with(self.padding_6@, 0u128)
        &&& filled_with(self.padding_7@, 0u128)
    }

    proof fn lemma_discriminator() {
        assert(Self::spec_discriminator()[0] != zeros(8)[0]);
    }

    proof fn lemma_zeroed_padding() {
        lemma_zeroed_elements::<u8, 6>();
        lemma_zeroed_elements::<u8, 7>();
        lemma_zeroed_elements::<u128, 13>();
        lemma_zeroed_elements::<u128, 32>();
    }

    fn discriminator() -> (d: [u8; 8]) {
        let d: [u8; 8] = [190, 178, 231, 184, 49, 186, 103, 13];
        assert(d@ =~= Self::spec_discriminator());
        d
    }

    fn has_zero_padding(&self) -> (b: bool) {
        self.padding_0 == 0 && is_zero_u8(&self.padding_1) && is_zero_u8(&self.padding_2)
            && self.padding_3 == 0 && is_zero_u128(&self.padding_4) && is_zero_u128(
            &self.padding_5,
        ) && is_zero_u128(&self.padding_6) && is_zero_u128(&self.padding_7)
    }
}

impl WhirlpoolStrategy {
    /// The bytes of the account that holds this record.
    pub fn encode(&self) -> (bytes: Vec<u8>)
        ensures
            bytes@ == spec_encode_account(*self),
    {
        encode_account(self)
    }

    /// Reads the record from the bytes of its account.
    pub fn decode(bytes: &[u8]) -> (res: Result<Self, CodecError>)
        ensures
            res == spec_decode_account::<Self>(bytes@),
    {
        decode_account(bytes)
    }
}

} // verus!
