use sha2::{Digest, Sha256};
use vprog::address::Address;
use vprog::codec::{decode_account, encode_account, CodecError, Record};
use vprog::collateral::{CollateralInfo, CollateralInfos};
use vprog::layout::Layout;
use vprog::le::{get_le, put_le};
use vprog::parts::{KaminoRewardInfo, Price, RebalanceRaw, WithdrawalCaps};
use vprog::policy::GlobalConfig;
use vprog::strategy::WhirlpoolStrategy;

fn address(seed: u8) -> Address {
    let mut bytes = [0u8; 32];
    for (i, b) in bytes.iter_mut().enumerate() {
        *b = seed.wrapping_add(i as u8);
    }
    Address::new(bytes)
}

fn anchor_discriminator(name: &str) -> Vec<u8> {
    let preimage = format!("account:{}", name);
    Sha256::digest(preimage.as_bytes())[..8].to_vec()
}

fn sample_strategy() -> WhirlpoolStrategy {
    let mut s = WhirlpoolStrategy::zeroed();
    s.admin_authority = address(1);
    s.global_config = address(2);
    s.base_vault_authority_bump = 254;
    s.token_a_vault = address(3);
    s.token_b_vault = address(4);
    s.deprecated_0 = [address(5), address(6)];
    s.deprecated_1 = [7, 8];
    s.token_b_collateral_id = 1;
    s.shares_mint_decimals = 6;
    s.withdrawal_cap_a = WithdrawalCaps {
        config_capacity: -5,
        current_total: 9,
        last_interval_start_timestamp: 1_700_000_000,
        config_interval_length_seconds: 3600,
    };
    s.swap_vault_max_slippage_bps = 0xdead_beef;
    s.kamino_rewards[2].reward_per_second = u64::MAX;
    s.deposit_blocked = 1;
    s.local_admin_blocked = 1;
    s.reference_swap_price_b = Price { price: 12345, exp: 6 };
    s.rebalance_raw.params[127] = 0xaa;
    s.rebalance_raw.state[0] = 0xbb;
    s.rebalance_raw.reference_price_type = 2;
    s.pending_admin = address(9);
    s
}

#[test]
fn sizes_are_the_layout_sizes() {
    assert_eq!(WithdrawalCaps::size(), 32);
    assert_eq!(Price::size(), 16);
    assert_eq!(KaminoRewardInfo::size(), 120);
    assert_eq!(RebalanceRaw::size(), 385);
    assert_eq!(CollateralInfo::size(), 216);
    assert_eq!(CollateralInfos::size(), 256 * 216);
    assert_eq!(GlobalConfig::size(), 26824);
    assert_eq!(WhirlpoolStrategy::size(), 4056);
    assert_eq!(<[u64; 2035]>::size(), 16280);
    assert_eq!(WhirlpoolStrategy::zeroed().encode().len(), 4064);
    assert_eq!(GlobalConfig::zeroed().encode().len(), 26832);
    assert_eq!(CollateralInfos::zeroed().encode().len(), 55304);
}

#[test]
fn numbers_are_little_endian() {
    let mut out = Vec::new();
    0x0102_0304_0506_0708u64.encode_into(&mut out);
    assert_eq!(out, vec![8, 7, 6, 5, 4, 3, 2, 1]);
    assert_eq!(out, bytemuck::bytes_of(&0x0102_0304_0506_0708u64).to_vec());

    let mut out = Vec::new();
    0xbeefu16.encode_into(&mut out);
    0xdead_beefu32.encode_into(&mut out);
    0x7fu8.encode_into(&mut out);
    assert_eq!(out, vec![0xef, 0xbe, 0xef, 0xbe, 0xad, 0xde, 0x7f]);

    let mut out = Vec::new();
    1u128.encode_into(&mut out);
    assert_eq!(out.len(), 16);
    assert_eq!(out[0], 1);
    assert!(out[1..].iter().all(|b| *b == 0));
    let mut out = Vec::new();
    u128::MAX.encode_into(&mut out);
    assert_eq!(out, vec![0xffu8; 16]);
    assert_eq!(u128::decode_at(&out, 0), u128::MAX);
}

#[test]
fn signed_numbers_are_twos_complement() {
    for v in [0i64, 1, -1, -5, i64::MIN, i64::MAX, -1_700_000_000] {
        let mut out = vec![0x55u8];
        v.encode_into(&mut out);
        assert_eq!(out[1..], v.to_le_bytes()[..]);
        assert_eq!(i64::decode_at(&out, 1), v);
    }
    let mut out = Vec::new();
    (-1i64).encode_into(&mut out);
    assert_eq!(out, vec![0xffu8; 8]);
}

#[test]
fn put_and_get_keep_the_low_bytes() {
    let mut out = vec![9u8];
    put_le(&mut out, 0x0a0b0c, 2);
    assert_eq!(out, vec![9, 0x0c, 0x0b]);
    assert_eq!(get_le(&out, 1, 2), 0x0b0c);
    assert_eq!(get_le(&out, 0, 3), 0x0b0c09);
    assert_eq!(get_le(&out, 3, 0), 0);
}

#[test]
fn arrays_are_their_elements_in_order() {
    let a: [u16; 4] = [1, 0x0203, 0xffff, 0];
    let mut out = Vec::new();
    a.encode_into(&mut out);
    assert_eq!(out, vec![1, 0, 3, 2, 0xff, 0xff, 0, 0]);
    assert_eq!(out, bytemuck::cast_slice::<u16, u8>(&a).to_vec());
    assert_eq!(<[u16; 4]>::decode_at(&out, 0), a);
    assert_eq!(<[u16; 3]>::decode_at(&out, 2), [0x0203, 0xffff, 0]);
    let empty: [u64; 0] = [];
    let mut out = Vec::new();
    empty.encode_into(&mut out);
    assert!(out.is_empty());
    assert_eq!(<[u64; 0]>::size(), 0);
}

#[test]
fn withdrawal_caps_layout_is_exact() {
    let caps = WithdrawalCaps {
        config_capacity: 1000,
        current_total: -2,
        last_interval_start_timestamp: 3,
        config_interval_length_seconds: 0x0100,
    };
    let mut out = Vec::new();
    caps.encode_into(&mut out);
    let mut expected = Vec::new();
    expected.extend_from_slice(&1000i64.to_le_bytes());
    expected.extend_from_slice(&(-2i64).to_le_bytes());
    expected.extend_from_slice(&3u64.to_le_bytes());
    expected.extend_from_slice(&0x0100u64.to_le_bytes());
    assert_eq!(out, expected);
    assert_eq!(WithdrawalCaps::decode_at(&out, 0), caps);
}

#[test]
fn discriminators_are_the_account_hashes() {
    assert_eq!(WhirlpoolStrategy::discriminator().to_vec(), anchor_discriminator("WhirlpoolStrategy"));
    assert_eq!(GlobalConfig::discriminator().to_vec(), anchor_discriminator("GlobalConfig"));
    assert_eq!(CollateralInfos::discriminator().to_vec(), anchor_discriminator("CollateralInfos"));
    assert_eq!(WhirlpoolStrategy::discriminator(), [190, 178, 231, 184, 49, 186, 103, 13]);
}

#[test]
fn zeroed_records_are_zero_bytes() {
    let bytes = WhirlpoolStrategy::zeroed().encode();
    assert_eq!(bytes[..8], WhirlpoolStrategy::discriminator());
    assert!(bytes[8..].iter().all(|b| *b == 0));
    let bytes = GlobalConfig::default().encode();
    assert!(bytes[8..].iter().all(|b| *b == 0));
    assert_eq!(GlobalConfig::default(), GlobalConfig::zeroed());
    let bytes = CollateralInfos::zeroed().encode();
    assert!(bytes[8..].iter().all(|b| *b == 0));
    assert_eq!(Address::zeroed(), Address::new([0u8; 32]));
    assert!(WhirlpoolStrategy::zeroed().has_zero_padding());
}

#[test]
fn strategy_round_trip() {
    let s = sample_strategy();
    let bytes = s.encode();
    assert_eq!(bytes.len(), 4064);
    let back = WhirlpoolStrategy::decode(&bytes).expect("a well-formed record decodes");
    assert_eq!(back, s);
    assert!(back.has_zero_padding());
    assert_eq!(back.encode(), bytes);
}

#[test]
fn strategy_fields_are_at_their_offsets() {
    let s = sample_strategy();
    let bytes = s.encode();
    let body = &bytes[8..];
    assert_eq!(body[0..32], address(1).bytes);
    assert_eq!(body[32..64], address(2).bytes);
    assert_eq!(body[96..104], 254u64.to_le_bytes());
    assert_eq!(body[392..424], address(3).bytes);
    assert_eq!(body[424..456], address(4).bytes);
    assert_eq!(body[456..488], address(5).bytes);
    assert_eq!(body[488..520], address(6).bytes);
    assert_eq!(body[520..528], 7u64.to_le_bytes());
    assert_eq!(body[744..752], 6u64.to_le_bytes());
    assert_eq!(body[2272..2304], address(9).bytes);
    assert_eq!(WhirlpoolStrategy::decode_at(&bytes, 8), s);
}

#[test]
fn global_config_round_trip() {
    let mut g = GlobalConfig::default();
    g.emergency_mode = 1;
    g.block_swap_uneven_vaults = 7;
    g.block_emergency_swap = 9;
    g.swap_rewards_discount_bps[255] = 250;
    g.actions_authority = address(10);
    g.admin_authority = address(11);
    g.treasury_fee_vaults[0] = address(12);
    g.treasury_fee_vaults[255] = address(13);
    g.token_infos = address(14);
    g.min_performance_fee_bps = 100;
    let bytes = g.encode();
    assert_eq!(bytes.len(), 26832);
    assert_eq!(bytes[8 + 56..8 + 60], 7u32.to_le_bytes());
    assert_eq!(bytes[8 + 60..8 + 64], 9u32.to_le_bytes());
    assert_eq!(bytes[8 + 10440..8 + 10472], address(14).bytes);
    assert_eq!(GlobalConfig::decode(&bytes), Ok(g));
}

#[test]
fn registry_round_trip() {
    let mut r = CollateralInfos::zeroed();
    r.infos[0].mint = address(20);
    r.infos[0].name = *b"SOL\0\0\0\0\0\0\0\0\0\0\0\0\0\0\0\0\0\0\0\0\0\0\0\0\0\0\0\0\0";
    r.infos[1].mint = address(21);
    r.infos[1].scope_price_chain = [1, 2, 3, 0xffff];
    r.infos[255].disabled = 1;
    r.infos[255].max_age_twap_seconds = 77;
    let bytes = r.encode();
    assert_eq!(bytes.len(), 55304);
    assert_eq!(bytes[8 + 216..8 + 248], address(21).bytes);
    assert_eq!(bytes[8 + 255 * 216 + 136], 1);
    let back = CollateralInfos::decode(&bytes).expect("a well-formed registry decodes");
    assert_eq!(back, r);
}

#[test]
fn wrong_length_is_a_layout_mismatch() {
    let mut bytes = sample_strategy().encode();
    bytes.push(0);
    assert_eq!(WhirlpoolStrategy::decode(&bytes), Err(CodecError::LayoutMismatch));
    bytes.truncate(4063);
    assert_eq!(WhirlpoolStrategy::decode(&bytes), Err(CodecError::LayoutMismatch));
    assert_eq!(WhirlpoolStrategy::decode(&[]), Err(CodecError::LayoutMismatch));
    assert_eq!(GlobalConfig::decode(&[0u8; 8]), Err(CodecError::LayoutMismatch));
}

#[test]
fn wrong_discriminator_is_a_layout_mismatch() {
    let mut bytes = sample_strategy().encode();
    bytes[7] ^= 1;
    assert_eq!(WhirlpoolStrategy::decode(&bytes), Err(CodecError::LayoutMismatch));
    let as_config = GlobalConfig::default().encode();
    assert_eq!(CollateralInfos::decode(&as_config), Err(CodecError::LayoutMismatch));
    let mut pretend = vec![0u8; 4064];
    pretend[..8].copy_from_slice(&GlobalConfig::discriminator());
    assert_eq!(WhirlpoolStrategy::decode(&pretend), Err(CodecError::LayoutMismatch));
}

#[test]
fn blank_storage_holds_no_record() {
    assert_eq!(WhirlpoolStrategy::decode(&vec![0u8; 4064]), Err(CodecError::LayoutMismatch));
    let mut body_only = sample_strategy().encode();
    for b in body_only[..8].iter_mut() {
        *b = 0;
    }
    assert_eq!(WhirlpoolStrategy::decode(&body_only), Err(CodecError::LayoutMismatch));
}

#[test]
fn non_zero_padding_is_a_corrupt_record() {
    let good = sample_strategy().encode();
    for offset in [1120usize, 1658, 1663, 2049, 2055, 2304, 2312, 2519, 2520, 3544, 4055] {
        let mut bytes = good.clone();
        bytes[8 + offset] = 1;
        assert_eq!(WhirlpoolStrategy::decode(&bytes), Err(CodecError::CorruptRecord));
    }
    let mut bytes = good.clone();
    bytes[8 + 1119] = 1;
    assert!(WhirlpoolStrategy::decode(&bytes).is_ok());

    let mut s = sample_strategy();
    s.padding_5[31] = 1 << 100;
    assert!(!s.has_zero_padding());
    assert_eq!(WhirlpoolStrategy::decode(&s.encode()), Err(CodecError::CorruptRecord));

    let mut g = GlobalConfig::default();
    g._padding[2034] = 1;
    assert_eq!(GlobalConfig::decode(&g.encode()), Err(CodecError::CorruptRecord));

    let mut r = CollateralInfos::zeroed();
    r.infos[17]._padding0[6] = 1;
    assert_eq!(CollateralInfos::decode(&r.encode()), Err(CodecError::CorruptRecord));
    let mut r = CollateralInfos::zeroed();
    r.infos[255]._padding[7] = 1;
    assert_eq!(CollateralInfos::decode(&r.encode()), Err(CodecError::CorruptRecord));
}

#[test]
fn generic_account_functions_agree_with_the_methods() {
    let s = sample_strategy();
    let bytes = encode_account(&s);
    assert_eq!(bytes, s.encode());
    assert_eq!(decode_account::<WhirlpoolStrategy>(&bytes), Ok(s));
}

#[test]
fn addresses_compare_by_their_bytes() {
    assert_eq!(address(1), address(1));
    assert_ne!(address(1), address(2));
    let mut bytes = address(1).bytes;
    bytes[31] ^= 0x80;
    assert_ne!(Address::new(bytes), address(1));
    assert_eq!(address(3).to_vec(), address(3).bytes.to_vec());
}
