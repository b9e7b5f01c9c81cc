//! The collateral registry.

use crate::address::Address;
use crate::arrays::lemma_zeroed_elements;
use crate::codec::{
    decode_account, encode_account, filled_with, is_zero_u64, is_zero_u8, spec_decode_account,
    spec_encode_account, CodecError, Record,
};
use crate::layout::{lemma_window, Layout};
use crate::le::zeros;
use vstd::prelude::*;

verus! {

/// Risk parameters of one accepted collateral mint.
#[derive(Clone, Copy, Debug, PartialEq, Eq)]
pub struct CollateralInfo {
    pub mint: Address,
    pub lower_heuristic: u64,
    pub upper_heuristic: u64,
    pub exp_heuristic: u64,
    pub max_twap_divergence_bps: u64,
    pub scope_twap_price_chain: [u16; 4],
    pub scope_price_chain: [u16; 4],
    pub name: [u8; 32],
    pub max_age_price_seconds: u64,
    pub max_age_twap_seconds: u64,
    pub max_ignorable_amount_as_reward: u64,
    pub disabled: u8,
    pub _padding0: [u8; 7],
    pub scope_staking_rate_chain: [u16; 4],
    pub _padding: [u64; 8],
}

impl Layout for CollateralInfo {
    open spec fn spec_size() -> nat {
        216
    }

    open spec fn spec_encode(&self) -> Seq<u8> {
        self.mint.spec_encode()
            + self.lower_heuristic.spec_encode()
            + self.upper_heuristic.spec_encode()
            + self.exp_heuristic.spec_encode()
            + self.max_twap_divergence_bps.spec_encode()
            + self.scope_twap_price_chain.spec_encode()
            + self.scope_price_chain.spec_encode()
            + self.name.spec_encode()
            + self.max_age_price_seconds.spec_encode()
            + self.max_age_twap_seconds.spec_encode()
            + self.max_ignorable_amount_as_reward.spec_encode()
            + self.disabled.spec_encode()
            + self._padding0.spec_encode()
            + self.scope_staking_rate_chain.spec_encode()
            + self._padding.spec_encode()
    }

    open spec fn spec_decode(bytes: Seq<u8>) -> Self {
        CollateralInfo {
            mint: Address::spec_decode(bytes.subrange(0, 32)),
            lower_heuristic: u64::spec_decode(bytes.subrange(32, 40)),
            upper_heuristic: u64::spec_decode(bytes.subrange(40, 48)),
            exp_heuristic: u64::spec_decode(bytes.subrange(48, 56)),
            max_twap_divergence_bps: u64::spec_decode(bytes.subrange(56, 64)),
            scope_twap_price_chain: <[u16; 4]>::spec_decode(bytes.subrange(64, 72)),
            scope_price_chain: <[u16; 4]>::spec_decode(bytes.subrange(72, 80)),
            name: <[u8; 32]>::spec_decode(bytes.subrange(80, 112)),
            max_age_price_seconds: u64::spec_decode(bytes.subrange(112, 120)),
            max_age_twap_seconds: u64::spec_decode(bytes.subrange(120, 128)),
            max_ignorable_amount_as_reward: u64::spec_decode(bytes.subrange(128, 136)),
            disabled: u8::spec_decode(bytes.subrange(136, 137)),
            _padding0: <[u8; 7]>::spec_decode(bytes.subrange(137, 144)),
            scope_staking_rate_chain: <[u16; 4]>::spec_decode(bytes.subrange(144, 152)),
            _padding: <[u64; 8]>::spec_decode(bytes.subrange(152, 216)),
        }
    }

    open spec fn spec_zeroed() -> Self {
        CollateralInfo {
            mint: Address::spec_zeroed(),
            lower_heuristic: u64::spec_zeroed(),
            upper_heuristic: u64::spec_zeroed(),
            exp_heuristic: u64::spec_zeroed(),
            max_twap_divergence_bps: u64::spec_zeroed(),
            scope_twap_price_chain: <[u16; 4]>::spec_zeroed(),
            scope_price_chain: <[u16; 4]>::spec_zeroed(),
            name: <[u8; 32]>::spec_zeroed(),
            max_age_price_seconds: u64::spec_zeroed(),
            max_age_twap_seconds: u64::spec_zeroed(),
            max_ignorable_amount_as_reward: u64::spec_zeroed(),
            disabled: u8::spec_zeroed(),
            _padding0: <[u8; 7]>::spec_zeroed(),
            scope_staking_rate_chain: <[u16; 4]>::spec_zeroed(),
            _padding: <[u64; 8]>::spec_zeroed(),
        }
    }

    proof fn lemma_encode_len(&self) {
        self.mint.lemma_encode_len();
        self.lower_heuristic.lemma_encode_len();
        self.upper_heuristic.lemma_encode_len();
        self.exp_heuristic.lemma_encode_len();
        self.max_twap_divergence_bps.lemma_encode_len();
        self.scope_twap_price_chain.lemma_encode_len();
        self.scope_price_chain.lemma_encode_len();
        self.name.lemma_encode_len();
        self.max_age_price_seconds.lemma_encode_len();
        self.max_age_twap_seconds.lemma_encode_len();
        self.max_ignorable_amount_as_reward.lemma_encode_len();
        self.disabled.lemma_encode_len();
        self._padding0.lemma_encode_len();
        self.scope_staking_rate_chain.lemma_encode_len();
        self._padding.lemma_encode_len();
    }

    proof fn lemma_decode_encode(&self) {
        let bytes = self.spec_encode();
        self.mint.lemma_encode_len();
        self.lower_heuristic.lemma_encode_len();
        self.upper_heuristic.lemma_encode_len();
        self.exp_heuristic.lemma_encode_len();
        self.max_twap_divergence_bps.lemma_encode_len();
        self.scope_twap_price_chain.lemma_encode_len();
        self.scope_price_chain.lemma_encode_len();
        self.name.lemma_encode_len();
        self.max_age_price_seconds.lemma_encode_len();
        self.max_age_twap_seconds.lemma_encode_len();
        self.max_ignorable_amount_as_reward.lemma_encode_len();
        self.disabled.lemma_encode_len();
        self._padding0.lemma_encode_len();
        self.scope_staking_rate_chain.lemma_encode_len();
        self._padding.lemma_encode_len();
        assert(bytes.subrange(0, 32) =~= self.mint.spec_encode());
        self.mint.lemma_decode_encode();
        assert(bytes.subrange(32, 40) =~= self.lower_heuristic.spec_encode());
        self.lower_heuristic.lemma_decode_encode();
        assert(bytes.subrange(40, 48) =~= self.upper_heuristic.spec_encode());
        self.upper_heuristic.lemma_decode_encode();
        assert(bytes.subrange(48, 56) =~= self.exp_heuristic.spec_encode());
        self.exp_heuristic.lemma_decode_encode();
        assert(bytes.subrange(56, 64) =~= self.max_twap_divergence_bps.spec_encode());
        self.max_twap_divergence_bps.lemma_decode_encode();
        assert(bytes.subrange(64, 72) =~= self.scope_twap_price_chain.spec_encode());
        self.scope_twap_price_chain.lemma_decode_encode();
        assert(bytes.subrange(72, 80) =~= self.scope_price_chain.spec_encode());
        self.scope_price_chain.lemma_decode_encode();
        assert(bytes.subrange(80, 112) =~= self.name.spec_encode());
        self.name.lemma_decode_encode();
        assert(bytes.subrange(112, 120) =~= self.max_age_price_seconds.spec_encode());
        self.max_age_price_seconds.lemma_decode_encode();
        assert(bytes.subrange(120, 128) =~= self.max_age_twap_seconds.spec_encode());
        self.max_age_twap_seconds.lemma_decode_encode();
        assert(bytes.subrange(128, 136) =~= self.max_ignorable_amount_as_reward.spec_encode());
        self.max_ignorable_amount_as_reward.lemma_decode_encode();
        assert(bytes.subrange(136, 137) =~= self.disabled.spec_encode());
        self.disabled.lemma_decode_encode();
        assert(bytes.subrange(137, 144) =~= self._padding0.spec_encode());
        self._padding0.lemma_decode_encode();
        assert(bytes.subrange(144, 152) =~= self.scope_staking_rate_chain.spec_encode());
        self.scope_staking_rate_chain.lemma_decode_encode();
        assert(bytes.subrange(152, 216) =~= self._padding.spec_encode());
        self._padding.lemma_decode_encode();
    }

    proof fn lemma_encode_decode(bytes: Seq<u8>) {
        Address::lemma_encode_decode(bytes.subrange(0, 32));
        u64::lemma_encode_decode(bytes.subrange(32, 40));
        u64::lemma_encode_decode(bytes.subrange(40, 48));
        u64::lemma_encode_decode(bytes.subrange(48, 56));
        u64::lemma_encode_decode(bytes.subrange(56, 64));
        <[u16; 4]>::lemma_encode_decode(bytes.subrange(64, 72));
        <[u16; 4]>::lemma_encode_decode(bytes.subrange(72, 80));
        <[u8; 32]>::lemma_encode_decode(bytes.subrange(80, 112));
        u64::lemma_encode_decode(bytes.subrange(112, 120));
        u64::lemma_encode_decode(bytes.subrange(120, 128));
        u64::lemma_encode_decode(bytes.subrange(128, 136));
        u8::lemma_encode_decode(bytes.subrange(136, 137));
        <[u8; 7]>::lemma_encode_decode(bytes.subrange(137, 144));
        <[u16; 4]>::lemma_encode_decode(bytes.subrange(144, 152));
        <[u64; 8]>::lemma_encode_decode(bytes.subrange(152, 216));
        assert(Self::spec_decode(bytes).spec_encode() =~= bytes);
    }

    proof fn lemma_zeroed() {
        Address::lemma_zeroed();
        u64::lemma_zeroed();
        u64::lemma_zeroed();
        u64::lemma_zeroed();
        u64::lemma_zeroed();
        <[u16; 4]>::lemma_zeroed();
        <[u16; 4]>::lemma_zeroed();
        <[u8; 32]>::lemma_zeroed();
        u64::lemma_zeroed();
        u64::lemma_zeroed();
        u64::lemma_zeroed();
        u8::lemma_zeroed();
        <[u8; 7]>::lemma_zeroed();
        <[u16; 4]>::lemma_zeroed();
        <[u64; 8]>::lemma_zeroed();
        assert(Self::spec_zeroed().spec_encode() =~= zeros(216));
    }

    fn size() -> (n: usize) {
        216
    }

    fn zeroed() -> (r: Self) {
        CollateralInfo {
            mint: Address::zeroed(),
            lower_heuristic: u64::zeroed(),
            upper_heuristic: u64::zeroed(),
            exp_heuristic: u64::zeroed(),
            max_twap_divergence_bps: u64::zeroed(),
            scope_twap_price_chain: <[u16; 4]>::zeroed(),
            scope_price_chain: <[u16; 4]>::zeroed(),
            name: <[u8; 32]>::zeroed(),
            max_age_price_seconds: u64::zeroed(),
            max_age_twap_seconds: u64::zeroed(),
            max_ignorable_amount_as_reward: u64::zeroed(),
            disabled: u8::zeroed(),
            _padding0: <[u8; 7]>::zeroed(),
            scope_staking_rate_chain: <[u16; 4]>::zeroed(),
            _padding: <[u64; 8]>::zeroed(),
        }
    }

    fn encode_into(&self, out: &mut Vec<u8>) {
        self.mint.encode_into(out);
        self.lower_heuristic.encode_into(out);
        self.upper_heuristic.encode_into(out);
        self.exp_heuristic.encode_into(out);
        self.max_twap_divergence_bps.encode_into(out);
        self.scope_twap_price_chain.encode_into(out);
        self.scope_price_chain.encode_into(out);
        self.name.encode_into(out);
        self.max_age_price_seconds.encode_into(out);
        self.max_age_twap_seconds.encode_into(out);
        self.max_ignorable_amount_as_reward.encode_into(out);
        self.disabled.encode_into(out);
        self._padding0.encode_into(out);
        self.scope_staking_rate_chain.encode_into(out);
        self._padding.encode_into(out);
        assert(out@ =~= old(out)@ + self.spec_encode());
    }

    fn decode_at(bytes: &[u8], at: usize) -> (r: Self) {
        let len = bytes.len();
        proof {
            lemma_window(bytes@, at as int, 216);
        }
        CollateralInfo {
            mint: Address::decode_at(bytes, at),
            lower_heuristic: u64::decode_at(bytes, at + 32),
            upper_heuristic: u64::decode_at(bytes, at + 40),
            exp_heuristic: u64::decode_at(bytes, at + 48),
            max_twap_divergence_bps: u64::decode_at(bytes, at + 56),
            scope_twap_price_chain: <[u16; 4]>::decode_at(bytes, at + 64),
            scope_price_chain: <[u16; 4]>::decode_at(bytes, at + 72),
            name: <[u8; 32]>::decode_at(bytes, at + 80),
            max_age_price_seconds: u64::decode_at(bytes, at + 112),
            max_age_twap_seconds: u64::decode_at(bytes, at + 120),
            max_ignorable_amount_as_reward: u64::decode_at(bytes, at + 128),
            disabled: u8::decode_at(bytes, at + 136),
            _padding0: <[u8; 7]>::decode_at(bytes, at + 137),
            scope_staking_rate_chain: <[u16; 4]>::decode_at(bytes, at + 144),
            _padding: <[u64; 8]>::decode_at(bytes, at + 152),
        }
    }
}

impl CollateralInfo {
    /// Both reserved regions of the entry hold zero.
    pub open spec fn padding_is_zero(&self) -> bool {
        &&& filled_with(self._padding0@, 0u8)
        &&& filled_with(self._padding@, 0u64)
    }

    /// The reserved regions of the zero entry are zero.
    pub proof fn lemma_zeroed_padding()
        ensures
            Self::spec_zeroed().padding_is_zero(),
    {
        lemma_zeroed_elements::<u8, 7>();
        lemma_zeroed_elements::<u64, 8>();
    }

    pub fn has_zero_padding(&self) -> (b: bool)
        ensures
            b == self.padding_is_zero(),
    {
        is_zero_u8(&self._padding0) && is_zero_u64(&self._padding)
    }
}

/// The registry: a table of 256 entries whose index is the collateral id.
#[derive(Clone, Copy, Debug, PartialEq, Eq)]
pub struct CollateralInfos {
    pub infos: [CollateralInfo; 256],
}

impl Layout for CollateralInfos {
    open spec fn spec_size() -> nat {
        55296
    }

    open spec fn spec_encode(&self) -> Seq<u8> {
        self.infos.spec_encode()
    }

    open spec fn spec_decode(bytes: Seq<u8>) -> Self {
        CollateralInfos {
            infos: <[CollateralInfo; 256]>::spec_decode(bytes.subrange(0, 55296)),
        }
    }

    open spec fn spec_zeroed() -> Self {
        CollateralInfos {
            infos: <[CollateralInfo; 256]>::spec_zeroed(),
        }
    }

    proof fn lemma_encode_len(&self) {
        self.infos.lemma_encode_len();
    }

    proof fn lemma_decode_encode(&self) {
        let bytes = self.spec_encode();
        self.infos.lemma_encode_len();
        assert(bytes.subrange(0, 55296) =~= self.infos.spec_encode());
        self.infos.lemma_decode_encode();
    }

    proof fn lemma_encode_decode(bytes: Seq<u8>) {
        <[CollateralInfo; 256]>::lemma_encode_decode(bytes.subrange(0, 55296));
        assert(Self::spec_decode(bytes).spec_encode() =~= bytes);
    }

    proof fn lemma_zeroed() {
        <[CollateralInfo; 256]>::lemma_zeroed();
        assert(Self::spec_zeroed().spec_encode() =~= zeros(55296));
    }

    fn size() -> (n: usize) {
        55296
    }

    fn zeroed() -> (r: Self) {
        CollateralInfos {
            infos: <[CollateralInfo; 256]>::zeroed(),
        }
    }

    fn encode_into(&self, out: &mut Vec<u8>) {
        self.infos.encode_into(out);
        assert(out@ =~= old(out)@ + self.spec_encode());
    }

    fn decode_at(bytes: &[u8], at: usize) -> (r: Self) {
        let len = bytes.len();
        proof {
            lemma_window(bytes@, at as int, 55296);
        }
        CollateralInfos {
            infos: <[CollateralInfo; 256]>::decode_at(bytes, at),
        }
    }
}

impl Record for CollateralInfos {
    open spec fn spec_discriminator() -> Seq<u8> {
        seq![127u8, 210, 52, 226, 74, 169, 111, 9]
    }

    open spec fn padding_is_zero(&self) -> bool {
        forall|i: int| 0 <= i < 256 ==> (#[trigger] self.infos[i]).padding_is_zero()
    }

    proof fn lemma_discriminator() {
        assert(Self::spec_discriminator()[0] != zeros(8)[0]);
    }

    proof fn lemma_zeroed_padding() {
        lemma_zeroed_elements::<CollateralInfo, 256>();
        CollateralInfo::lemma_zeroed_padding();
    }

    fn discriminator() -> (d: [u8; 8]) {
        let d: [u8; 8] = [127, 210, 52, 226, 74, 169, 111, 9];
        assert(d@ =~= Self::spec_discriminator());
        d
    }

    fn has_zero_padding(&self) -> (b: bool) {
        let mut i: usize = 0;
        while i < 256
            invariant
                i <= 256,
                forall|j: int| 0 <= j < i ==> (#[trigger] self.infos[j]).padding_is_zero(),
            decreases 256 - i,
        {
            if !self.infos[i].has_zero_padding() {
                return false;
            }
            i += 1;
        }
        true
    }
}

impl CollateralInfos {
    /// The bytes of the account that holds this record.
    pub fn encode(&self) -> (bytes: Vec<u8>)
        ensures
            bytes@ == spec_encode_account(*self),
    {
        encode_account(self)
    }

    /// Reads the record from the bytes of its account.
    pub fn decode(bytes: &[u8]) -> (res: Result<Self, CodecError>)
        ensures
            res == spec_decode_account::<Self>(bytes@),
    {
        decode_account(bytes)
    }
}

/// Number of entries in the registry.
pub const REGISTRY_CAPACITY: usize = 256;

/// The lowest index at or after `from` whose entry describes `mint`.
pub open spec fn spec_position(infos: Seq<CollateralInfo>, mint: Address, from: int) -> Option<int>
    decreases infos.len() - from,
{
    if from < 0 || from >= infos.len() {
        None
    } else if infos[from].mint == mint {
        Some(from)
    } else {
        spec_position(infos, mint, from + 1)
    }
}

/// What `spec_position` finds is the first match, and it finds one if there is any.
pub proof fn lemma_position(infos: Seq<CollateralInfo>, mint: Address, from: int)
    requires
        0 <= from,
    ensures
        match spec_position(infos, mint, from) {
            Some(i) => {
                &&& from <= i < infos.len()
                &&& infos[i].mint == mint
                &&& forall|j: int| from <= j < i ==> infos[j].mint != mint
            },
            None => forall|j: int| from <= j < infos.len() ==> infos[j].mint != mint,
        },
    decreases infos.len() - from,
{
    if from < infos.len() && infos[from].mint != mint {
        lemma_position(infos, mint, from + 1);
    }
}

impl CollateralInfos {
    /// The collateral id under which `mint` may be used: the index of the first
    /// entry that describes it, unless that entry is disabled. The all-zero
    /// address marks an unused entry and is no mint.
    pub open spec fn spec_collateral_id(&self, mint: Address) -> Option<u64> {
        if mint == Address::spec_zeroed() {
            None
        } else {
            match spec_position(self.infos@, mint, 0) {
                Some(i) => if self.infos[i].disabled == 0 {
                    Some(i as u64)
                } else {
                    None
                },
                None => None,
            }
        }
    }

    /// A collateral id names an enabled entry of the table that describes the mint.
    pub proof fn lemma_collateral_id(&self, mint: Address)
        ensures
            self.spec_collateral_id(mint) matches Some(id) ==> {
                &&& id < 256
                &&& self.infos[id as int].mint == mint
                &&& self.infos[id as int].disabled == 0
            },
            (forall|j: int| 0 <= j < 256 ==> (#[trigger] self.infos[j]).mint != mint)
                ==> self.spec_collateral_id(mint) is None,
            (forall|j: int| 0 <= j < 256 && (#[trigger] self.infos[j]).mint == mint
                ==> self.infos[j].disabled != 0) ==> self.spec_collateral_id(mint) is None,
    {
        broadcast use vstd::array::group_array_axioms;

        lemma_position(self.infos@, mint, 0);
    }

    /// Looks `mint` up in the registry.
    pub fn collateral_id(&self, mint: &Address) -> (r: Option<u64>)
        ensures
            r == self.spec_collateral_id(*mint),
    {
        broadcast use vstd::array::group_array_axioms;

        let unused = Address::zeroed();
        if *mint == unused {
            return None;
        }
        let mut i: usize = 0;
        while i < 256
            invariant
                i <= 256,
                self.infos@.len() == 256,
                *mint != Address::spec_zeroed(),
                spec_position(self.infos@, *mint, 0) == spec_position(self.infos@, *mint, i as int),
            decreases 256 - i,
        {
            if self.infos[i].mint == *mint {
                if self.infos[i].disabled == 0 {
                    return Some(i as u64);
                } else {
                    return None;
                }
            }
            i += 1;
        }
        None
    }
}

} // verus!
