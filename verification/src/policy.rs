//! The global policy record.

use crate::address::Address;
use crate::arrays::lemma_zeroed_elements;
use crate::codec::{
    decode_account, encode_account, filled_with, is_zero_u64, spec_decode_account,
    spec_encode_account, CodecError, Record,
};
use crate::layout::{lemma_window, Layout};
use crate::le::zeros;
use vstd::prelude::*;

verus! {

/// Deployment-wide policy shared by all strategies.
#[derive(Clone, Copy, Debug, PartialEq, Eq)]
pub struct GlobalConfig {
    pub emergency_mode: u64,
    pub block_deposit: u64,
    pub block_invest: u64,
    pub block_withdraw: u64,
    pub block_collect_fees: u64,
    pub block_collect_rewards: u64,
    pub block_swap_rewards: u64,
    pub block_swap_uneven_vaults: u32,
    pub block_emergency_swap: u32,
    pub min_withdrawal_fee_bps: u64,
    pub scope_program_id: Address,
    pub scope_price_id: Address,
    pub swap_rewards_discount_bps: [u64; 256],
    pub actions_authority: Address,
    pub admin_authority: Address,
    pub treasury_fee_vaults: [Address; 256],
    pub token_infos: Address,
    pub block_local_admin: u64,
    pub min_performance_fee_bps: u64,
    pub min_swap_uneven_slippage_tolerance_bps: u64,
    pub min_reference_price_slippage_tolerance_bps: u64,
    pub actions_after_rebalance_delay_seconds: u64,
    pub treasury_fee_vault_receiver: Address,
    pub _padding: [u64; 2035],
}

impl GlobalConfig {
    /// The operation switches and the oracle identities.
    pub open spec fn spec_encode_switches(&self) -> Seq<u8> {
        self.emergency_mode.spec_encode()
            + self.block_deposit.spec_encode()
            + self.block_invest.spec_encode()
            + self.block_withdraw.spec_encode()
            + self.block_collect_fees.spec_encode()
            + self.block_collect_rewards.spec_encode()
            + self.block_swap_rewards.spec_encode()
            + self.block_swap_uneven_vaults.spec_encode()
            + self.block_emergency_swap.spec_encode()
            + self.min_withdrawal_fee_bps.spec_encode()
            + self.scope_program_id.spec_encode()
            + self.scope_price_id.spec_encode()
    }

    /// The reward discounts, the two authorities and the treasury vaults.
    pub open spec fn spec_encode_authorities(&self) -> Seq<u8> {
        self.swap_rewards_discount_bps.spec_encode()
            + self.actions_authority.spec_encode()
            + self.admin_authority.spec_encode()
            + self.treasury_fee_vaults.spec_encode()
    }

    /// The registry reference, the global minimums and the reserved tail.
    pub open spec fn spec_encode_limits(&self) -> Seq<u8> {
        self.token_infos.spec_encode()
            + self.block_local_admin.spec_encode()
            + self.min_performance_fee_bps.spec_encode()
            + self.min_swap_uneven_slippage_tolerance_bps.spec_encode()
            + self.min_reference_price_slippage_tolerance_bps.spec_encode()
            + self.actions_after_rebalance_delay_seconds.spec_encode()
            + self.treasury_fee_vault_receiver.spec_encode()
            + self._padding.spec_encode()
    }

    fn encode_switches_into(&self, out: &mut Vec<u8>)
        ensures
            final(out)@ == old(out)@ + self.spec_encode_switches(),
    {
        self.emergency_mode.encode_into(out);
        self.block_deposit.encode_into(out);
        self.block_invest.encode_into(out);
        self.block_withdraw.encode_into(out);
        self.block_collect_fees.encode_into(out);
        self.block_collect_rewards.encode_into(out);
        self.block_swap_rewards.encode_into(out);
        self.block_swap_uneven_vaults.encode_into(out);
        self.block_emergency_swap.encode_into(out);
        self.min_withdrawal_fee_bps.encode_into(out);
        self.scope_program_id.encode_into(out);
        self.scope_price_id.encode_into(out);
        assert(out@ =~= old(out)@ + self.spec_encode_switches());
    }

    fn encode_authorities_into(&self, out: &mut Vec<u8>)
        ensures
            final(out)@ == old(out)@ + self.spec_encode_authorities(),
    {
        self.swap_rewards_discount_bps.encode_into(out);
        self.actions_authority.encode_into(out);
        self.admin_authority.encode_into(out);
        self.treasury_fee_vaults.encode_into(out);
        assert(out@ =~= old(out)@ + self.spec_encode_authorities());
    }

    fn encode_limits_into(&self, out: &mut Vec<u8>)
        ensures
            final(out)@ == old(out)@ + self.spec_encode_limits(),
    {
        self.token_infos.encode_into(out);
        self.block_local_admin.encode_into(out);
        self.min_performance_fee_bps.encode_into(out);
        self.min_swap_uneven_slippage_tolerance_bps.encode_into(out);
        self.min_reference_price_slippage_tolerance_bps.encode_into(out);
        self.actions_after_rebalance_delay_seconds.encode_into(out);
        self.treasury_fee_vault_receiver.encode_into(out);
        self._padding.encode_into(out);
        assert(out@ =~= old(out)@ + self.spec_encode_limits());
    }

    /// Where each field of this region lies in the encoding of the record.
    pub proof fn lemma_switches_placed(&self)
        ensures
            self.spec_encode().subrange(0, 8) == self.emergency_mode.spec_encode(),
            self.spec_encode().subrange(8, 16) == self.block_deposit.spec_encode(),
            self.spec_encode().subrange(16, 24) == self.block_invest.spec_encode(),
            self.spec_encode().subrange(24, 32) == self.block_withdraw.spec_encode(),
            self.spec_encode().subrange(32, 40) == self.block_collect_fees.spec_encode(),
            self.spec_encode().subrange(40, 48) == self.block_collect_rewards.spec_encode(),
            self.spec_encode().subrange(48, 56) == self.block_swap_rewards.spec_encode(),
            self.spec_encode().subrange(56, 60) == self.block_swap_uneven_vaults.spec_encode(),
            self.spec_encode().subrange(60, 64) == self.block_emergency_swap.spec_encode(),
            self.spec_encode().subrange(64, 72) == self.min_withdrawal_fee_bps.spec_encode(),
            self.spec_encode().subrange(72, 104) == self.scope_program_id.spec_encode(),
            self.spec_encode().subrange(104, 136) == self.scope_price_id.spec_encode(),
    {
        let bytes = self.spec_encode();
        self.lemma_switches_len();
        self.lemma_authorities_len();
        self.lemma_limits_len();
        let part = self.spec_encode_switches();
        assert(bytes.subrange(0, 136) =~= part);
        lemma_window(bytes, 0, 136);
        self.emergency_mode.lemma_encode_len();
        self.block_deposit.lemma_encode_len();
        self.block_invest.lemma_encode_len();
        self.block_withdraw.lemma_encode_len();
        self.block_collect_fees.lemma_encode_len();
        self.block_collect_rewards.lemma_encode_len();
        self.block_swap_rewards.lemma_encode_len();
        self.block_swap_uneven_vaults.lemma_encode_len();
        self.block_emergency_swap.lemma_encode_len();
        self.min_withdrawal_fee_bps.lemma_encode_len();
        self.scope_program_id.lemma_encode_len();
        self.scope_price_id.lemma_encode_len();
        assert(part.subrange(0, 8) =~= self.emergency_mode.spec_encode());
        assert(bytes.subrange(0, 136).subrange(0, 8) == bytes.subrange(0, 8));
        assert(part.subrange(8, 16) =~= self.block_deposit.spec_encode());
        assert(bytes.subrange(0, 136).subrange(8, 16) == bytes.subrange(8, 16));
        assert(part.subrange(16, 24) =~= self.block_invest.spec_encode());
        assert(bytes.subrange(0, 136).subrange(16, 24) == bytes.subrange(16, 24));
        assert(part.subrange(24, 32) =~= self.block_withdraw.spec_encode());
        assert(bytes.subrange(0, 136).subrange(24, 32) == bytes.subrange(24, 32));
        assert(part.subrange(32, 40) =~= self.block_collect_fees.spec_encode());
        assert(bytes.subrange(0, 136).subrange(32, 40) == bytes.subrange(32, 40));
        assert(part.subrange(40, 48) =~= self.block_collect_rewards.spec_encode());
        assert(bytes.subrange(0, 136).subrange(40, 48) == bytes.subrange(40, 48));
        assert(part.subrange(48, 56) =~= self.block_swap_rewards.spec_encode());
        assert(bytes.subrange(0, 136).subrange(48, 56) == bytes.subrange(48, 56));
        assert(part.subrange(56, 60) =~= self.block_swap_uneven_vaults.spec_encode());
        assert(bytes.subrange(0, 136).subrange(56, 60) == bytes.subrange(56, 60));
        assert(part.subrange(60, 64) =~= self.block_emergency_swap.spec_encode());
        assert(bytes.subrange(0, 136).subrange(60, 64) == bytes.subrange(60, 64));
        assert(part.subrange(64, 72) =~= self.min_withdrawal_fee_bps.spec_encode());
        assert(bytes.subrange(0, 136).subrange(64, 72) == bytes.subrange(64, 72));
        assert(part.subrange(72, 104) =~= self.scope_program_id.spec_encode());
        assert(bytes.subrange(0, 136).subrange(72, 104) == bytes.subrange(72, 104));
        assert(part.subrange(104, 136) =~= self.scope_price_id.spec_encode());
        assert(bytes.subrange(0, 136).subrange(104, 136) == bytes.subrange(104, 136));
    }

    proof fn lemma_switches_encoded(bytes: Seq<u8>)
        requires
            bytes.len() == 26824,
        ensures
            Self::spec_decode(bytes).spec_encode_switches() == bytes.subrange(0, 136),
    {
        u64::lemma_encode_decode(bytes.subrange(0, 8));
        u64::lemma_encode_decode(bytes.subrange(8, 16));
        u64::lemma_encode_decode(bytes.subrange(16, 24));
        u64::lemma_encode_decode(bytes.subrange(24, 32));
        u64::lemma_encode_decode(bytes.subrange(32, 40));
        u64::lemma_encode_decode(bytes.subrange(40, 48));
        u64::lemma_encode_decode(bytes.subrange(48, 56));
        u32::lemma_encode_decode(bytes.subrange(56, 60));
        u32::lemma_encode_decode(bytes.subrange(60, 64));
        u64::lemma_encode_decode(bytes.subrange(64, 72));
        Address::lemma_encode_decode(bytes.subrange(72, 104));
        Address::lemma_encode_decode(bytes.subrange(104, 136));
        assert(Self::spec_decode(bytes).spec_encode_switches() =~= bytes.subrange(0, 136));
    }

    proof fn lemma_switches_zeroed()
        ensures
            Self::spec_zeroed().spec_encode_switches() == zeros(136),
    {
        u64::lemma_zeroed();
        u64::lemma_zeroed();
        u64::lemma_zeroed();
        u64::lemma_zeroed();
        u64::lemma_zeroed();
        u64::lemma_zeroed();
        u64::lemma_zeroed();
        u32::lemma_zeroed();
        u32::lemma_zeroed();
        u64::lemma_zeroed();
        Address::lemma_zeroed();
        Address::lemma_zeroed();
        assert(Self::spec_zeroed().spec_encode_switches() =~= zeros(136));
    }

    proof fn lemma_switches_len(&self)
        ensures
            self.spec_encode_switches().len() == 136,
    {
        self.emergency_mode.lemma_encode_len();
        self.block_deposit.lemma_encode_len();
        self.block_invest.lemma_encode_len();
        self.block_withdraw.lemma_encode_len();
        self.block_collect_fees.lemma_encode_len();
        self.block_collect_rewards.lemma_encode_len();
        self.block_swap_rewards.lemma_encode_len();
        self.block_swap_uneven_vaults.lemma_encode_len();
        self.block_emergency_swap.lemma_encode_len();
        self.min_withdrawal_fee_bps.lemma_encode_len();
        self.scope_program_id.lemma_encode_len();
        self.scope_price_id.lemma_encode_len();
    }

    /// Where each field of this region lies in the encoding of the record.
    pub proof fn lemma_authorities_placed(&self)
        ensures
            self.spec_encode().subrange(136, 2184) == self.swap_rewards_discount_bps.spec_encode(),
            self.spec_encode().subrange(2184, 2216) == self.actions_authority.spec_encode(),
            self.spec_encode().subrange(2216, 2248) == self.admin_authority.spec_encode(),
            self.spec_encode().subrange(2248, 10440) == self.treasury_fee_vaults.spec_encode(),
    {
        let bytes = self.spec_encode();
        self.lemma_switches_len();
        self.lemma_authorities_len();
        self.lemma_limits_len();
        let part = self.spec_encode_authorities();
        assert(bytes.subrange(136, 10440) =~= part);
        lemma_window(bytes, 136, 10304);
        self.swap_rewards_discount_bps.lemma_encode_len();
        self.actions_authority.lemma_encode_len();
        self.admin_authority.lemma_encode_len();
        self.treasury_fee_vaults.lemma_encode_len();
        assert(part.subrange(0, 2048) =~= self.swap_rewards_discount_bps.spec_encode());
        assert(bytes.subrange(136, 10440).subrange(0, 2048) == bytes.subrange(136, 2184));
        assert(part.subrange(2048, 2080) =~= self.actions_authority.spec_encode());
        assert(bytes.subrange(136, 10440).subrange(2048, 2080) == bytes.subrange(2184, 2216));
        assert(part.subrange(2080, 2112) =~= self.admin_authority.spec_encode());
        assert(bytes.subrange(136, 10440).subrange(2080, 2112) == bytes.subrange(2216, 2248));
        assert(part.subrange(2112, 10304) =~= self.treasury_fee_vaults.spec_encode());
        assert(bytes.subrange(136, 10440).subrange(2112, 10304) == bytes.subrange(2248, 10440));
    }

    proof fn lemma_authorities_encoded(bytes: Seq<u8>)
        requires
            bytes.len() == 26824,
        ensures
            Self::spec_decode(bytes).spec_encode_authorities() == bytes.subrange(136, 10440),
    {
        <[u64; 256]>::lemma_encode_decode(bytes.subrange(136, 2184));
        Address::lemma_encode_decode(bytes.subrange(2184, 2216));
        Address::lemma_encode_decode(bytes.subrange(2216, 2248));
        <[Address; 256]>::lemma_encode_decode(bytes.subrange(2248, 10440));
        assert(Self::spec_decode(bytes).spec_encode_authorities() =~= bytes.subrange(136, 10440));
    }

    proof fn lemma_authorities_zeroed()
        ensures
            Self::spec_zeroed().spec_encode_authorities() == zeros(10304),
    {
        <[u64; 256]>::lemma_zeroed();
        Address::lemma_zeroed();
        Address::lemma_zeroed();
        <[Address; 256]>::lemma_zeroed();
        assert(Self::spec_zeroed().spec_encode_authorities() =~= zeros(10304));
    }

    proof fn lemma_authorities_len(&self)
        ensures
            self.spec_encode_authorities().len() == 10304,
    {
        self.swap_rewards_discount_bps.lemma_encode_len();
        self.actions_authority.lemma_encode_len();
        self.admin_authority.lemma_encode_len();
        self.treasury_fee_vaults.lemma_encode_len();
    }

    /// Where each field of this region lies in the encoding of the record.
    pub proof fn lemma_limits_placed(&self)
        ensures
            self.spec_encode().subrange(10440, 10472) == self.token_infos.spec_encode(),
            self.spec_encode().subrange(10472, 10480) == self.block_local_admin.spec_encode(),
            self.spec_encode().subrange(10480, 10488) == self.min_performance_fee_bps.spec_encode(),
            self.spec_encode().subrange(10488, 10496) == self.min_swap_uneven_slippage_tolerance_bps.spec_encode(),
            self.spec_encode().subrange(10496, 10504) == self.min_reference_price_slippage_tolerance_bps.spec_encode(),
            self.spec_encode().subrange(10504, 10512) == self.actions_after_rebalance_delay_seconds.spec_encode(),
            self.spec_encode().subrange(10512, 10544) == self.treasury_fee_vault_receiver.spec_encode(),
            self.spec_encode().subrange(10544, 26824) == self._padding.spec_encode(),
    {
        let bytes = self.spec_encode();
        self.lemma_switches_len();
        self.lemma_authorities_len();
        self.lemma_limits_len();
        let part = self.spec_encode_limits();
        assert(bytes.subrange(10440, 26824) =~= part);
        lemma_window(bytes, 10440, 16384);
        self.token_infos.lemma_encode_len();
        self.block_local_admin.lemma_encode_len();
        self.min_performance_fee_bps.lemma_encode_len();
        self.min_swap_uneven_slippage_tolerance_bps.lemma_encode_len();
        self.min_reference_price_slippage_tolerance_bps.lemma_encode_len();
        self.actions_after_rebalance_delay_seconds.lemma_encode_len();
        self.treasury_fee_vault_receiver.lemma_encode_len();
        self._padding.lemma_encode_len();
        assert(part.subrange(0, 32) =~= self.token_infos.spec_encode());
        assert(bytes.subrange(10440, 26824).subrange(0, 32) == bytes.subrange(10440, 10472));
        assert(part.subrange(32, 40) =~= self.block_local_admin.spec_encode());
        assert(bytes.subrange(10440, 26824).subrange(32, 40) == bytes.subrange(10472, 10480));
        assert(part.subrange(40, 48) =~= self.min_performance_fee_bps.spec_encode());
        assert(bytes.subrange(10440, 26824).subrange(40, 48) == bytes.subrange(10480, 10488));
        assert(part.subrange(48, 56) =~= self.min_swap_uneven_slippage_tolerance_bps.spec_encode());
        assert(bytes.subrange(10440, 26824).subrange(48, 56) == bytes.subrange(10488, 10496));
        assert(part.subrange(56, 64) =~= self.min_reference_price_slippage_tolerance_bps.spec_encode());
        assert(bytes.subrange(10440, 26824).subrange(56, 64) == bytes.subrange(10496, 10504));
        assert(part.subrange(64, 72) =~= self.actions_after_rebalance_delay_seconds.spec_encode());
        assert(bytes.subrange(10440, 26824).subrange(64, 72) == bytes.subrange(10504, 10512));
        assert(part.subrange(72, 104) =~= self.treasury_fee_vault_receiver.spec_encode());
        assert(bytes.subrange(10440, 26824).subrange(72, 104) == bytes.subrange(10512, 10544));
        assert(part.subrange(104, 16384) =~= self._padding.spec_encode());
        assert(bytes.subrange(10440, 26824).subrange(104, 16384) == bytes.subrange(10544, 26824));
    }

    proof fn lemma_limits_encoded(bytes: Seq<u8>)
        requires
            bytes.len() == 26824,
        ensures
            Self::spec_decode(bytes).spec_encode_limits() == bytes.subrange(10440, 26824),
    {
        Address::lemma_encode_decode(bytes.subrange(10440, 10472));
        u64::lemma_encode_decode(bytes.subrange(10472, 10480));
        u64::lemma_encode_decode(bytes.subrange(10480, 10488));
        u64::lemma_encode_decode(bytes.subrange(10488, 10496));
        u64::lemma_encode_decode(bytes.subrange(10496, 10504));
        u64::lemma_encode_decode(bytes.subrange(10504, 10512));
        Address::lemma_encode_decode(bytes.subrange(10512, 10544));
        <[u64; 2035]>::lemma_encode_decode(bytes.subrange(10544, 26824));
        assert(Self::spec_decode(bytes).spec_encode_limits() =~= bytes.subrange(10440, 26824));
    }

    proof fn lemma_limits_zeroed()
        ensures
            Self::spec_zeroed().spec_encode_limits() == zeros(16384),
    {
        Address::lemma_zeroed();
        u64::lemma_zeroed();
        u64::lemma_zeroed();
        u64::lemma_zeroed();
        u64::lemma_zeroed();
        u64::lemma_zeroed();
        Address::lemma_zeroed();
        <[u64; 2035]>::lemma_zeroed();
        assert(Self::spec_zeroed().spec_encode_limits() =~= zeros(16384));
    }

    proof fn lemma_limits_len(&self)
        ensures
            self.spec_encode_limits().len() == 16384,
    {
        self.token_infos.lemma_encode_len();
        self.block_local_admin.lemma_encode_len();
        self.min_performance_fee_bps.lemma_encode_len();
        self.min_swap_uneven_slippage_tolerance_bps.lemma_encode_len();
        self.min_reference_price_slippage_tolerance_bps.lemma_encode_len();
        self.actions_after_rebalance_delay_seconds.lemma_encode_len();
        self.treasury_fee_vault_receiver.lemma_encode_len();
        self._padding.lemma_encode_len();
    }
}

impl Layout for GlobalConfig {
    open spec fn spec_size() -> nat {
        26824
    }

    open spec fn spec_encode(&self) -> Seq<u8> {
        self.spec_encode_switches()
            + self.spec_encode_authorities()
            + self.spec_encode_limits()
    }

    open spec fn spec_decode(bytes: Seq<u8>) -> Self {
        GlobalConfig {
            emergency_mode: u64::spec_decode(bytes.subrange(0, 8)),
            block_deposit: u64::spec_decode(bytes.subrange(8, 16)),
            block_invest: u64::spec_decode(bytes.subrange(16, 24)),
            block_withdraw: u64::spec_decode(bytes.subrange(24, 32)),
            block_collect_fees: u64::spec_decode(bytes.subrange(32, 40)),
            block_collect_rewards: u64::spec_decode(bytes.subrange(40, 48)),
            block_swap_rewards: u64::spec_decode(bytes.subrange(48, 56)),
            block_swap_uneven_vaults: u32::spec_decode(bytes.subrange(56, 60)),
            block_emergency_swap: u32::spec_decode(bytes.subrange(60, 64)),
            min_withdrawal_fee_bps: u64::spec_decode(bytes.subrange(64, 72)),
            scope_program_id: Address::spec_decode(bytes.subrange(72, 104)),
            scope_price_id: Address::spec_decode(bytes.subrange(104, 136)),
            swap_rewards_discount_bps: <[u64; 256]>::spec_decode(bytes.subrange(136, 2184)),
            actions_authority: Address::spec_decode(bytes.subrange(2184, 2216)),
            admin_authority: Address::spec_decode(bytes.subrange(2216, 2248)),
            treasury_fee_vaults: <[Address; 256]>::spec_decode(bytes.subrange(2248, 10440)),
            token_infos: Address::spec_decode(bytes.subrange(10440, 10472)),
            block_local_admin: u64::spec_decode(bytes.subrange(10472, 10480)),
            min_performance_fee_bps: u64::spec_decode(bytes.subrange(10480, 10488)),
            min_swap_uneven_slippage_tolerance_bps: u64::spec_decode(bytes.subrange(10488, 10496)),
            min_reference_price_slippage_tolerance_bps: u64::spec_decode(bytes.subrange(10496, 10504)),
            actions_after_rebalance_delay_seconds: u64::spec_decode(bytes.subrange(10504, 10512)),
            treasury_fee_vault_receiver: Address::spec_decode(bytes.subrange(10512, 10544)),
            _padding: <[u64; 2035]>::spec_decode(bytes.subrange(10544, 26824)),
        }
    }

    open spec fn spec_zeroed() -> Self {
        GlobalConfig {
            emergency_mode: u64::spec_zeroed(),
            block_deposit: u64::spec_zeroed(),
            block_invest: u64::spec_zeroed(),
            block_withdraw: u64::spec_zeroed(),
            block_collect_fees: u64::spec_zeroed(),
            block_collect_rewards: u64::spec_zeroed(),
            block_swap_rewards: u64::spec_zeroed(),
            block_swap_uneven_vaults: u32::spec_zeroed(),
            block_emergency_swap: u32::spec_zeroed(),
            min_withdrawal_fee_bps: u64::spec_zeroed(),
            scope_program_id: Address::spec_zeroed(),
            scope_price_id: Address::spec_zeroed(),
            swap_rewards_discount_bps: <[u64; 256]>::spec_zeroed(),
            actions_authority: Address::spec_zeroed(),
            admin_authority: Address::spec_zeroed(),
            treasury_fee_vaults: <[Address; 256]>::spec_zeroed(),
            token_infos: Address::spec_zeroed(),
            block_local_admin: u64::spec_zeroed(),
            min_performance_fee_bps: u64::spec_zeroed(),
            min_swap_uneven_slippage_tolerance_bps: u64::spec_zeroed(),
            min_reference_price_slippage_tolerance_bps: u64::spec_zeroed(),
            actions_after_rebalance_delay_seconds: u64::spec_zeroed(),
            treasury_fee_vault_receiver: Address::spec_zeroed(),
            _padding: <[u64; 2035]>::spec_zeroed(),
        }
    }

    proof fn lemma_encode_len(&self) {
        self.lemma_switches_len();
        self.lemma_authorities_len();
        self.lemma_limits_len();
    }

    proof fn lemma_decode_encode(&self) {
        self.lemma_switches_placed();
        self.lemma_authorities_placed();
        self.lemma_limits_placed();
        self.emergency_mode.lemma_decode_encode();
        self.block_deposit.lemma_decode_encode();
        self.block_invest.lemma_decode_encode();
        self.block_withdraw.lemma_decode_encode();
        self.block_collect_fees.lemma_decode_encode();
        self.block_collect_rewards.lemma_decode_encode();
        self.block_swap_rewards.lemma_decode_encode();
        self.block_swap_uneven_vaults.lemma_decode_encode();
        self.block_emergency_swap.lemma_decode_encode();
        self.min_withdrawal_fee_bps.lemma_decode_encode();
        self.scope_program_id.lemma_decode_encode();
        self.scope_price_id.lemma_decode_encode();
        self.swap_rewards_discount_bps.lemma_decode_encode();
        self.actions_authority.lemma_decode_encode();
        self.admin_authority.lemma_decode_encode();
        self.treasury_fee_vaults.lemma_decode_encode();
        self.token_infos.lemma_decode_encode();
        self.block_local_admin.lemma_decode_encode();
        self.min_performance_fee_bps.lemma_decode_encode();
        self.min_swap_uneven_slippage_tolerance_bps.lemma_decode_encode();
        self.min_reference_price_slippage_tolerance_bps.lemma_decode_encode();
        self.actions_after_rebalance_delay_seconds.lemma_decode_encode();
        self.treasury_fee_vault_receiver.lemma_decode_encode();
        self._padding.lemma_decode_encode();
    }

    proof fn lemma_encode_decode(bytes: Seq<u8>) {
        Self::lemma_switches_encoded(bytes);
        Self::lemma_authorities_encoded(bytes);
        Self::lemma_limits_encoded(bytes);
        assert(Self::spec_decode(bytes).spec_encode() =~= bytes);
    }

    proof fn lemma_zeroed() {
        Self::lemma_switches_zeroed();
        Self::lemma_authorities_zeroed();
        Self::lemma_limits_zeroed();
        assert(Self::spec_zeroed().spec_encode() =~= zeros(26824));
    }

    fn size() -> (n: usize) {
        26824
    }

    fn zeroed() -> (r: Self) {
        GlobalConfig {
            emergency_mode: u64::zeroed(),
            block_deposit: u64::zeroed(),
            block_invest: u64::zeroed(),
            block_withdraw: u64::zeroed(),
            block_collect_fees: u64::zeroed(),
            block_collect_rewards: u64::zeroed(),
            block_swap_rewards: u64::zeroed(),
            block_swap_uneven_vaults: u32::zeroed(),
            block_emergency_swap: u32::zeroed(),
            min_withdrawal_fee_bps: u64::zeroed(),
            scope_program_id: Address::zeroed(),
            scope_price_id: Address::zeroed(),
            swap_rewards_discount_bps: <[u64; 256]>::zeroed(),
            actions_authority: Address::zeroed(),
            admin_authority: Address::zeroed(),
            treasury_fee_vaults: <[Address; 256]>::zeroed(),
            token_infos: Address::zeroed(),
            block_local_admin: u64::zeroed(),
            min_performance_fee_bps: u64::zeroed(),
            min_swap_uneven_slippage_tolerance_bps: u64::zeroed(),
            min_reference_price_slippage_tolerance_bps: u64::zeroed(),
            actions_after_rebalance_delay_seconds: u64::zeroed(),
            treasury_fee_vault_receiver: Address::zeroed(),
            _padding: <[u64; 2035]>::zeroed(),
        }
    }

    fn encode_into(&self, out: &mut Vec<u8>) {
        self.encode_switches_into(out);
        self.encode_authorities_into(out);
        self.encode_limits_into(out);
        assert(out@ =~= old(out)@ + self.spec_encode());
    }

    #[verifier::rlimit(100)]
    fn decode_at(bytes: &[u8], at: usize) -> (r: Self) {
        let len = bytes.len();
        proof {
            lemma_window(bytes@, at as int, 26824);
        }
        GlobalConfig {
            emergency_mode: u64::decode_at(bytes, at),
            block_deposit: u64::decode_at(bytes, at + 8),
            block_invest: u64::decode_at(bytes, at + 16),
            block_withdraw: u64::decode_at(bytes, at + 24),
            block_collect_fees: u64::decode_at(bytes, at + 32),
            block_collect_rewards: u64::decode_at(bytes, at + 40),
            block_swap_rewards: u64::decode_at(bytes, at + 48),
            block_swap_uneven_vaults: u32::decode_at(bytes, at + 56),
            block_emergency_swap: u32::decode_at(bytes, at + 60),
            min_withdrawal_fee_bps: u64::decode_at(bytes, at + 64),
            scope_program_id: Address::decode_at(bytes, at + 72),
            scope_price_id: Address::decode_at(bytes, at + 104),
            swap_rewards_discount_bps: <[u64; 256]>::decode_at(bytes, at + 136),
            actions_authority: Address::decode_at(bytes, at + 2184),
            admin_authority: Address::decode_at(bytes, at + 2216),
            treasury_fee_vaults: <[Address; 256]>::decode_at(bytes, at + 2248),
            token_infos: Address::decode_at(bytes, at + 10440),
            block_local_admin: u64::decode_at(bytes, at + 10472),
            min_performance_fee_bps: u64::decode_at(bytes, at + 10480),
            min_swap_uneven_slippage_tolerance_bps: u64::decode_at(bytes, at + 10488),
            min_reference_price_slippage_tolerance_bps: u64::decode_at(bytes, at + 10496),
            actions_after_rebalance_delay_seconds: u64::decode_at(bytes, at + 10504),
            treasury_fee_vault_receiver: Address::decode_at(bytes, at + 10512),
            _padding: <[u64; 2035]>::decode_at(bytes, at + 10544),
        }
    }
}

impl Record for GlobalConfig {
    open spec fn spec_discriminator() -> Seq<u8> {
        seq![149u8, 8, 156, 202, 160, 252, 176, 217]
    }

    open spec fn padding_is_zero(&self) -> bool {
        filled_with(self._padding@, 0u64)
    }

    proof fn lemma_discriminator() {
        assert(Self::spec_discriminator()[0] != zeros(8)[0]);
    }

    proof fn lemma_zeroed_padding() {
        lemma_zeroed_elements::<u64, 2035>();
    }

    fn discriminator() -> (d: [u8; 8]) {
        let d: [u8; 8] = [149, 8, 156, 202, 160, 252, 176, 217];
        assert(d@ =~= Self::spec_discriminator());
        d
    }

    fn has_zero_padding(&self) -> (b: bool) {
        is_zero_u64(&self._padding)
    }
}

impl GlobalConfig {
    /// The bytes of the account that holds this record.
    pub fn encode(&self) -> (bytes: Vec<u8>)
        ensures
            bytes@ == spec_encode_account(*self),
    {
        encode_account(self)
    }

    /// Reads the record from the bytes of its account.
    pub fn decode(bytes: &[u8]) -> (res: Result<Self, CodecError>)
        ensures
            res == spec_decode_account::<Self>(bytes@),
    {
        decode_account(bytes)
    }
}

impl Default for GlobalConfig {
    fn default() -> (r: Self)
        ensures
            r == Self::spec_zeroed(),
    {
        Self::zeroed()
    }
}

} // verus!
