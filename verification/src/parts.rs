//! Sub-records shared by the strategy record.

use crate::address::Address;
use crate::layout::{lemma_window, Layout};
use crate::le::zeros;
use vstd::prelude::*;

verus! {

/// A cap on the amount moved within a rolling interval.
#[derive(Clone, Copy, Debug, PartialEq, Eq)]
pub struct WithdrawalCaps {
    pub config_capacity: i64,
    pub current_total: i64,
    pub last_interval_start_timestamp: u64,
    pub config_interval_length_seconds: u64,
}

impl Layout for WithdrawalCaps {
    open spec fn spec_size() -> nat {
        32
    }

    open spec fn spec_encode(&self) -> Seq<u8> {
        self.config_capacity.spec_encode()
            + self.current_total.spec_encode()
            + self.last_interval_start_timestamp.spec_encode()
            + self.config_interval_length_seconds.spec_encode()
    }

    open spec fn spec_decode(bytes: Seq<u8>) -> Self {
        WithdrawalCaps {
            config_capacity: i64::spec_decode(bytes.subrange(0, 8)),
            current_total: i64::spec_decode(bytes.subrange(8, 16)),
            last_interval_start_timestamp: u64::spec_decode(bytes.subrange(16, 24)),
            config_interval_length_seconds: u64::spec_decode(bytes.subrange(24, 32)),
        }
    }

    open spec fn spec_zeroed() -> Self {
        WithdrawalCaps {
            config_capacity: i64::spec_zeroed(),
            current_total: i64::spec_zeroed(),
            last_interval_start_timestamp: u64::spec_zeroed(),
            config_interval_length_seconds: u64::spec_zeroed(),
        }
    }

    proof fn lemma_encode_len(&self) {
        self.config_capacity.lemma_encode_len();
        self.current_total.lemma_encode_len();
        self.last_interval_start_timestamp.lemma_encode_len();
        self.config_interval_length_seconds.lemma_encode_len();
    }

    proof fn lemma_decode_encode(&self) {
        let bytes = self.spec_encode();
        self.config_capacity.lemma_encode_len();
        self.current_total.lemma_encode_len();
        self.last_interval_start_timestamp.lemma_encode_len();
        self.config_interval_length_seconds.lemma_encode_len();
        assert(bytes.subrange(0, 8) =~= self.config_capacity.spec_encode());
        self.config_capacity.lemma_decode_encode();
        assert(bytes.subrange(8, 16) =~= self.current_total.spec_encode());
        self.current_total.lemma_decode_encode();
        assert(bytes.subrange(16, 24) =~= self.last_interval_start_timestamp.spec_encode());
        self.last_interval_start_timestamp.lemma_decode_encode();
        assert(bytes.subrange(24, 32) =~= self.config_interval_length_seconds.spec_encode());
        self.config_interval_length_seconds.lemma_decode_encode();
    }

    proof fn lemma_encode_decode(bytes: Seq<u8>) {
        i64::lemma_encode_decode(bytes.subrange(0, 8));
        i64::lemma_encode_decode(bytes.subrange(8, 16));
        u64::lemma_encode_decode(bytes.subrange(16, 24));
        u64::lemma_encode_decode(bytes.subrange(24, 32));
        assert(Self::spec_decode(bytes).spec_encode() =~= bytes);
    }

    proof fn lemma_zeroed() {
        i64::lemma_zeroed();
        i64::lemma_zeroed();
        u64::lemma_zeroed();
        u64::lemma_zeroed();
        assert(Self::spec_zeroed().spec_encode() =~= zeros(32));
    }

    fn size() -> (n: usize) {
        32
    }

    fn zeroed() -> (r: Self) {
        WithdrawalCaps {
            config_capacity: i64::zeroed(),
            current_total: i64::zeroed(),
            last_interval_start_timestamp: u64::zeroed(),
            config_interval_length_seconds: u64::zeroed(),
        }
    }

    fn encode_into(&self, out: &mut Vec<u8>) {
        self.config_capacity.encode_into(out);
        self.current_total.encode_into(out);
        self.last_interval_start_timestamp.encode_into(out);
        self.config_interval_length_seconds.encode_into(out);
        assert(out@ =~= old(out)@ + self.spec_encode());
    }

    fn decode_at(bytes: &[u8], at: usize) -> (r: Self) {
        let len = bytes.len();
        proof {
            lemma_window(bytes@, at as int, 32);
        }
        WithdrawalCaps {
            config_capacity: i64::decode_at(bytes, at),
            current_total: i64::decode_at(bytes, at + 8),
            last_interval_start_timestamp: u64::decode_at(bytes, at + 16),
            config_interval_length_seconds: u64::decode_at(bytes, at + 24),
        }
    }
}

impl WithdrawalCaps {
    /// The running total is non-negative and within the capacity.
    pub open spec fn spec_within_capacity(&self) -> bool {
        0 <= self.current_total <= self.config_capacity
    }

    /// The interval that was running has ended: `now` is past its start plus its length.
    pub open spec fn spec_interval_over(&self, now: u64) -> bool {
        now > self.last_interval_start_timestamp + self.config_interval_length_seconds
    }

    /// The cap as it stands at time `now`: once the interval is over, a new one
    /// starts at `now` with a total of zero.
    pub open spec fn spec_at(&self, now: u64) -> WithdrawalCaps {
        if self.spec_interval_over(now) {
            WithdrawalCaps { current_total: 0, last_interval_start_timestamp: now, ..*self }
        } else {
            *self
        }
    }

    /// The cap after `amount` is debited at time `now`, if the capacity allows it.
    pub open spec fn spec_debit(&self, amount: u64, now: u64) -> Option<WithdrawalCaps> {
        let at = self.spec_at(now);
        if at.current_total + amount <= at.config_capacity {
            Some(WithdrawalCaps { current_total: (at.current_total + amount) as i64, ..at })
        } else {
            None
        }
    }

    /// A cap with a non-negative capacity stays within it, whatever is debited and
    /// whenever.
    pub proof fn lemma_debit_keeps_capacity(&self, amount: u64, now: u64)
        requires
            self.spec_within_capacity(),
        ensures
            self.spec_at(now).spec_within_capacity(),
            self.spec_interval_over(now) ==> self.spec_at(now).current_total == 0,
            self.spec_debit(amount, now) matches Some(after) ==> after.spec_within_capacity()
                && after.current_total == self.spec_at(now).current_total + amount,
    {
    }

    /// Brings the cap to time `now`.
    pub fn advance_to(&mut self, now: u64)
        ensures
            *final(self) == old(self).spec_at(now),
    {
        let over = match self.last_interval_start_timestamp.checked_add(
            self.config_interval_length_seconds,
        ) {
            Some(end) => now > end,
            None => false,
        };
        if over {
            self.current_total = 0;
            self.last_interval_start_timestamp = now;
        }
    }

    /// Brings the cap to time `now` and debits `amount` if the capacity allows it.
    /// Returns whether the amount was debited.
    pub fn try_debit(&mut self, amount: u64, now: u64) -> (debited: bool)
        ensures
            debited == old(self).spec_debit(amount, now).is_some(),
            debited ==> *final(self) == old(self).spec_debit(amount, now)->Some_0,
            !debited ==> *final(self) == old(self).spec_at(now),
    {
        self.advance_to(now);
        let total = self.current_total as i128 + amount as i128;
        if total <= self.config_capacity as i128 {
            self.current_total = total as i64;
            true
        } else {
            false
        }
    }
}

/// A price as a mantissa and a decimal exponent.
#[derive(Clone, Copy, Debug, PartialEq, Eq)]
pub struct Price {
    pub price: u64,
    pub exp: u64,
}

impl Layout for Price {
    open spec fn spec_size() -> nat {
        16
    }

    open spec fn spec_encode(&self) -> Seq<u8> {
        self.price.spec_encode()
            + self.exp.spec_encode()
    }

    open spec fn spec_decode(bytes: Seq<u8>) -> Self {
        Price {
            price: u64::spec_decode(bytes.subrange(0, 8)),
            exp: u64::spec_decode(bytes.subrange(8, 16)),
        }
    }

    open spec fn spec_zeroed() -> Self {
        Price {
            price: u64::spec_zeroed(),
            exp: u64::spec_zeroed(),
        }
    }

    proof fn lemma_encode_len(&self) {
        self.price.lemma_encode_len();
        self.exp.lemma_encode_len();
    }

    proof fn lemma_decode_encode(&self) {
        let bytes = self.spec_encode();
        self.price.lemma_encode_len();
        self.exp.lemma_encode_len();
        assert(bytes.subrange(0, 8) =~= self.price.spec_encode());
        self.price.lemma_decode_encode();
        assert(bytes.subrange(8, 16) =~= self.exp.spec_encode());
        self.exp.lemma_decode_encode();
    }

    proof fn lemma_encode_decode(bytes: Seq<u8>) {
        u64::lemma_encode_decode(bytes.subrange(0, 8));
        u64::lemma_encode_decode(bytes.subrange(8, 16));
        assert(Self::spec_decode(bytes).spec_encode() =~= bytes);
    }

    proof fn lemma_zeroed() {
        u64::lemma_zeroed();
        u64::lemma_zeroed();
        assert(Self::spec_zeroed().spec_encode() =~= zeros(16));
    }

    fn size() -> (n: usize) {
        16
    }

    fn zeroed() -> (r: Self) {
        Price {
            price: u64::zeroed(),
            exp: u64::zeroed(),
        }
    }

    fn encode_into(&self, out: &mut Vec<u8>) {
        self.price.encode_into(out);
        self.exp.encode_into(out);
        assert(out@ =~= old(out)@ + self.spec_encode());
    }

    fn decode_at(bytes: &[u8], at: usize) -> (r: Self) {
        let len = bytes.len();
        proof {
            lemma_window(bytes@, at as int, 16);
        }
        Price {
            price: u64::decode_at(bytes, at),
            exp: u64::decode_at(bytes, at + 8),
        }
    }
}

/// One reward stream of a strategy.
#[derive(Clone, Copy, Debug, PartialEq, Eq)]
pub struct KaminoRewardInfo {
    pub decimals: u64,
    pub reward_vault: Address,
    pub reward_mint: Address,
    pub reward_collateral_id: u64,
    pub last_issuance_ts: u64,
    pub reward_per_second: u64,
    pub amount_uncollected: u64,
    pub amount_issued_cumulative: u64,
    pub amount_available: u64,
}

impl Layout for KaminoRewardInfo {
    open spec fn spec_size() -> nat {
        120
    }

    open spec fn spec_encode(&self) -> Seq<u8> {
        self.decimals.spec_encode()
            + self.reward_vault.spec_encode()
            + self.reward_mint.spec_encode()
            + self.reward_collateral_id.spec_encode()
            + self.last_issuance_ts.spec_encode()
            + self.reward_per_second.spec_encode()
            + self.amount_uncollected.spec_encode()
            + self.amount_issued_cumulative.spec_encode()
            + self.amount_available.spec_encode()
    }

    open spec fn spec_decode(bytes: Seq<u8>) -> Self {
        KaminoRewardInfo {
            decimals: u64::spec_decode(bytes.subrange(0, 8)),
            reward_vault: Address::spec_decode(bytes.subrange(8, 40)),
            reward_mint: Address::spec_decode(bytes.subrange(40, 72)),
            reward_collateral_id: u64::spec_decode(bytes.subrange(72, 80)),
            last_issuance_ts: u64::spec_decode(bytes.subrange(80, 88)),
            reward_per_second: u64::spec_decode(bytes.subrange(88, 96)),
            amount_uncollected: u64::spec_decode(bytes.subrange(96, 104)),
            amount_issued_cumulative: u64::spec_decode(bytes.subrange(104, 112)),
            amount_available: u64::spec_decode(bytes.subrange(112, 120)),
        }
    }

    open spec fn spec_zeroed() -> Self {
        KaminoRewardInfo {
            decimals: u64::spec_zeroed(),
            reward_vault: Address::spec_zeroed(),
            reward_mint: Address::spec_zeroed(),
            reward_collateral_id: u64::spec_zeroed(),
            last_issuance_ts: u64::spec_zeroed(),
            reward_per_second: u64::spec_zeroed(),
            amount_uncollected: u64::spec_zeroed(),
            amount_issued_cumulative: u64::spec_zeroed(),
            amount_available: u64::spec_zeroed(),
        }
    }

    proof fn lemma_encode_len(&self) {
        self.decimals.lemma_encode_len();
        self.reward_vault.lemma_encode_len();
        self.reward_mint.lemma_encode_len();
        self.reward_collateral_id.lemma_encode_len();
        self.last_issuance_ts.lemma_encode_len();
        self.reward_per_second.lemma_encode_len();
        self.amount_uncollected.lemma_encode_len();
        self.amount_issued_cumulative.lemma_encode_len();
        self.amount_available.lemma_encode_len();
    }

    proof fn lemma_decode_encode(&self) {
        let bytes = self.spec_encode();
        self.decimals.lemma_encode_len();
        self.reward_vault.lemma_encode_len();
        self.reward_mint.lemma_encode_len();
        self.reward_collateral_id.lemma_encode_len();
        self.last_issuance_ts.lemma_encode_len();
        self.reward_per_second.lemma_encode_len();
        self.amount_uncollected.lemma_encode_len();
        self.amount_issued_cumulative.lemma_encode_len();
        self.amount_available.lemma_encode_len();
        assert(bytes.subrange(0, 8) =~= self.decimals.spec_encode());
        self.decimals.lemma_decode_encode();
        assert(bytes.subrange(8, 40) =~= self.reward_vault.spec_encode());
        self.reward_vault.lemma_decode_encode();
        assert(bytes.subrange(40, 72) =~= self.reward_mint.spec_encode());
        self.reward_mint.lemma_decode_encode();
        assert(bytes.subrange(72, 80) =~= self.reward_collateral_id.spec_encode());
        self.reward_collateral_id.lemma_decode_encode();
        assert(bytes.subrange(80, 88) =~= self.last_issuance_ts.spec_encode());
        self.last_issuance_ts.lemma_decode_encode();
        assert(bytes.subrange(88, 96) =~= self.reward_per_second.spec_encode());
        self.reward_per_second.lemma_decode_encode();
        assert(bytes.subrange(96, 104) =~= self.amount_uncollected.spec_encode());
        self.amount_uncollected.lemma_decode_encode();
        assert(bytes.subrange(104, 112) =~= self.amount_issued_cumulative.spec_encode());
        self.amount_issued_cumulative.lemma_decode_encode();
        assert(bytes.subrange(112, 120) =~= self.amount_available.spec_encode());
        self.amount_available.lemma_decode_encode();
    }

    proof fn lemma_encode_decode(bytes: Seq<u8>) {
        u64::lemma_encode_decode(bytes.subrange(0, 8));
        Address::lemma_encode_decode(bytes.subrange(8, 40));
        Address::lemma_encode_decode(bytes.subrange(40, 72));
        u64::lemma_encode_decode(bytes.subrange(72, 80));
        u64::lemma_encode_decode(bytes.subrange(80, 88));
        u64::lemma_encode_decode(bytes.subrange(88, 96));
        u64::lemma_encode_decode(bytes.subrange(96, 104));
        u64::lemma_encode_decode(bytes.subrange(104, 112));
        u64::lemma_encode_decode(bytes.subrange(112, 120));
        assert(Self::spec_decode(bytes).spec_encode() =~= bytes);
    }

    proof fn lemma_zeroed() {
        u64::lemma_zeroed();
        Address::lemma_zeroed();
        Address::lemma_zeroed();
        u64::lemma_zeroed();
        u64::lemma_zeroed();
        u64::lemma_zeroed();
        u64::lemma_zeroed();
        u64::lemma_zeroed();
        u64::lemma_zeroed();
        assert(Self::spec_zeroed().spec_encode() =~= zeros(120));
    }

    fn size() -> (n: usize) {
        120
    }

    fn zeroed() -> (r: Self) {
        KaminoRewardInfo {
            decimals: u64::zeroed(),
            reward_vault: Address::zeroed(),
            reward_mint: Address::zeroed(),
            reward_collateral_id: u64::zeroed(),
            last_issuance_ts: u64::zeroed(),
            reward_per_second: u64::zeroed(),
            amount_uncollected: u64::zeroed(),
            amount_issued_cumulative: u64::zeroed(),
            amount_available: u64::zeroed(),
        }
    }

    fn encode_into(&self, out: &mut Vec<u8>) {
        self.decimals.encode_into(out);
        self.reward_vault.encode_into(out);
        self.reward_mint.encode_into(out);
        self.reward_collateral_id.encode_into(out);
        self.last_issuance_ts.encode_into(out);
        self.reward_per_second.encode_into(out);
        self.amount_uncollected.encode_into(out);
        self.amount_issued_cumulative.encode_into(out);
        self.amount_available.encode_into(out);
        assert(out@ =~= old(out)@ + self.spec_encode());
    }

    fn decode_at(bytes: &[u8], at: usize) -> (r: Self) {
        let len = bytes.len();
        proof {
            lemma_window(bytes@, at as int, 120);
        }
        KaminoRewardInfo {
            decimals: u64::decode_at(bytes, at),
            reward_vault: Address::decode_at(bytes, at + 8),
            reward_mint: Address::decode_at(bytes, at + 40),
            reward_collateral_id: u64::decode_at(bytes, at + 72),
            last_issuance_ts: u64::decode_at(bytes, at + 80),
            reward_per_second: u64::decode_at(bytes, at + 88),
            amount_uncollected: u64::decode_at(bytes, at + 96),
            amount_issued_cumulative: u64::decode_at(bytes, at + 104),
            amount_available: u64::decode_at(bytes, at + 112),
        }
    }
}

/// Opaque rebalance parameters and state.
#[derive(Clone, Copy, Debug, PartialEq, Eq)]
pub struct RebalanceRaw {
    pub params: [u8; 128],
    pub state: [u8; 256],
    pub reference_price_type: u8,
}

impl Layout for RebalanceRaw {
    open spec fn spec_size() -> nat {
        385
    }

    open spec fn spec_encode(&self) -> Seq<u8> {
        self.params.spec_encode()
            + self.state.spec_encode()
            + self.reference_price_type.spec_encode()
    }

    open spec fn spec_decode(bytes: Seq<u8>) -> Self {
        RebalanceRaw {
            params: <[u8; 128]>::spec_decode(bytes.subrange(0, 128)),
            state: <[u8; 256]>::spec_decode(bytes.subrange(128, 384)),
            reference_price_type: u8::spec_decode(bytes.subrange(384, 385)),
        }
    }

    open spec fn spec_zeroed() -> Self {
        RebalanceRaw {
            params: <[u8; 128]>::spec_zeroed(),
            state: <[u8; 256]>::spec_zeroed(),
            reference_price_type: u8::spec_zeroed(),
        }
    }

    proof fn lemma_encode_len(&self) {
        self.params.lemma_encode_len();
        self.state.lemma_encode_len();
        self.reference_price_type.lemma_encode_len();
    }

    proof fn lemma_decode_encode(&self) {
        let bytes = self.spec_encode();
        self.params.lemma_encode_len();
        self.state.lemma_encode_len();
        self.reference_price_type.lemma_encode_len();
        assert(bytes.subrange(0, 128) =~= self.params.spec_encode());
        self.params.lemma_decode_encode();
        assert(bytes.subrange(128, 384) =~= self.state.spec_encode());
        self.state.lemma_decode_encode();
        assert(bytes.subrange(384, 385) =~= self.reference_price_type.spec_encode());
        self.reference_price_type.lemma_decode_encode();
    }

    proof fn lemma_encode_decode(bytes: Seq<u8>) {
        <[u8; 128]>::lemma_encode_decode(bytes.subrange(0, 128));
        <[u8; 256]>::lemma_encode_decode(bytes.subrange(128, 384));
        u8::lemma_encode_decode(bytes.subrange(384, 385));
        assert(Self::spec_decode(bytes).spec_encode() =~= bytes);
    }

    proof fn lemma_zeroed() {
        <[u8; 128]>::lemma_zeroed();
        <[u8; 256]>::lemma_zeroed();
        u8::lemma_zeroed();
        assert(Self::spec_zeroed().spec_encode() =~= zeros(385));
    }

    fn size() -> (n: usize) {
        385
    }

    fn zeroed() -> (r: Self) {
        RebalanceRaw {
            params: <[u8; 128]>::zeroed(),
            state: <[u8; 256]>::zeroed(),
            reference_price_type: u8::zeroed(),
        }
    }

    fn encode_into(&self, out: &mut Vec<u8>) {
        self.params.encode_into(out);
        self.state.encode_into(out);
        self.reference_price_type.encode_into(out);
        assert(out@ =~= old(out)@ + self.spec_encode());
    }

    fn decode_at(bytes: &[u8], at: usize) -> (r: Self) {
        let len = bytes.len();
        proof {
            lemma_window(bytes@, at as int, 385);
        }
        RebalanceRaw {
            params: <[u8; 128]>::decode_at(bytes, at),
            state: <[u8; 256]>::decode_at(bytes, at + 128),
            reference_price_type: u8::decode_at(bytes, at + 384),
        }
    }
}

} // verus!
