use auto_swap::{
    decode_config, decode_record, encode_config, encode_record, AutoSwap, Pubkey, SwapConfig,
};

#[test]
fn config_layout_is_little_endian_fields_then_flag() {
    let cfg = SwapConfig {
        min_amount: 0x0102030405060708,
        max_amount: 1000,
        slippage_bps: 0x1234,
        enabled: true,
    };
    let bytes = encode_config(&cfg);
    assert_eq!(
        bytes,
        vec![
            8, 7, 6, 5, 4, 3, 2, 1, 0xE8, 0x03, 0, 0, 0, 0, 0, 0, 0x34, 0x12, 1
        ]
    );
    assert_eq!(bytes.len(), SwapConfig::LEN);
    assert_eq!(decode_config(&bytes), Some(cfg));
}

#[test]
fn disabled_flag_is_stored_as_zero() {
    let cfg = SwapConfig { min_amount: 0, max_amount: u64::MAX, slippage_bps: 0, enabled: false };
    let bytes = encode_config(&cfg);
    assert_eq!(bytes[18], 0);
    assert_eq!(&bytes[8..16], &[0xFF; 8]);
    assert_eq!(decode_config(&bytes), Some(cfg));
}

#[test]
fn config_with_bad_flag_or_length_is_rejected() {
    let mut bytes = encode_config(&SwapConfig {
        min_amount: 1,
        max_amount: 2,
        slippage_bps: 3,
        enabled: true,
    });
    bytes[18] = 2;
    assert_eq!(decode_config(&bytes), None);
    bytes[18] = 1;
    bytes.push(0);
    assert_eq!(decode_config(&bytes), None);
    assert_eq!(decode_config(&[]), None);
}

#[test]
fn record_layout_is_owner_then_config() {
    let rec = AutoSwap {
        owner: Pubkey::new_from_array([7; 32]),
        config: SwapConfig { min_amount: 100, max_amount: 1000, slippage_bps: 50, enabled: true },
    };
    let bytes = encode_record(&rec);
    assert_eq!(bytes.len(), AutoSwap::LEN);
    assert_eq!(&bytes[0..32], &[7; 32]);
    assert_eq!(&bytes[32..], encode_config(&rec.config).as_slice());
    let back = decode_record(&bytes).unwrap();
    assert_eq!(back.owner, rec.owner);
    assert_eq!(back.config, rec.config);
}

#[test]
fn short_record_is_rejected() {
    let rec = AutoSwap {
        owner: Pubkey::new_from_array([1; 32]),
        config: SwapConfig { min_amount: 1, max_amount: 2, slippage_bps: 3, enabled: false },
    };
    let bytes = encode_record(&rec);
    assert!(decode_record(&bytes[..50]).is_none());
    let mut bad = bytes.clone();
    bad[50] = 9;
    assert!(decode_record(&bad).is_none());
}
