//! The storage layout of a record: the owner's 32 key bytes, then the
//! configuration as two little-endian `u64` bounds, a little-endian `u16`
//! slippage and a one-byte flag (0 or 1).

use vstd::bytes::{
    lemma_auto_spec_u16_to_from_le_bytes, lemma_auto_spec_u64_to_from_le_bytes,
    spec_u16_from_le_bytes, spec_u16_to_le_bytes, spec_u64_from_le_bytes, spec_u64_to_le_bytes,
    u16_from_le_bytes, u16_to_le_bytes, u64_from_le_bytes, u64_to_le_bytes,
};
use vstd::prelude::*;
use vstd::slice::slice_subrange;

use crate::pubkey::Pubkey;
use crate::state::{AutoSwap, SwapConfig};

verus! {

/// The byte that stores a flag.
pub open spec fn flag_byte(b: bool) -> u8 {
    if b {
        1
    } else {
        0
    }
}

/// The stored form of a configuration.
pub open spec fn config_bytes(c: SwapConfig) -> Seq<u8> {
    spec_u64_to_le_bytes(c.min_amount) + spec_u64_to_le_bytes(c.max_amount)
        + spec_u16_to_le_bytes(c.slippage_bps) + seq![flag_byte(c.enabled)]
}

/// The configuration that `s` stores, when it is exactly one stored
/// configuration whose flag byte is 0 or 1.
pub open spec fn parse_config(s: Seq<u8>) -> Option<SwapConfig> {
    if s.len() == SwapConfig::LEN && (s[18] == 0 || s[18] == 1) {
        Some(
            SwapConfig {
                min_amount: spec_u64_from_le_bytes(s.subrange(0, 8)),
                max_amount: spec_u64_from_le_bytes(s.subrange(8, 16)),
                slippage_bps: spec_u16_from_le_bytes(s.subrange(16, 18)),
                enabled: s[18] == 1,
            },
        )
    } else {
        None
    }
}

/// Whether `s` holds a stored record: the right length and a flag byte of 0 or 1.
pub open spec fn is_record_bytes(s: Seq<u8>) -> bool {
    s.len() == AutoSwap::LEN && (s[50] == 0 || s[50] == 1)
}

/// The stored form of a record.
pub open spec fn record_bytes(r: AutoSwap) -> Seq<u8> {
    r.owner@ + config_bytes(r.config)
}

/// Writes a configuration in its stored form.
pub fn encode_config(c: &SwapConfig) -> (r: Vec<u8>)
    ensures
        r@ == config_bytes(*c),
{
    let mut out = u64_to_le_bytes(c.min_amount);
    let mut max = u64_to_le_bytes(c.max_amount);
    let mut slippage = u16_to_le_bytes(c.slippage_bps);
    out.append(&mut max);
    out.append(&mut slippage);
    out.push(if c.enabled { 1u8 } else { 0u8 });
    out
}

/// Reads a configuration from its stored form; `None` when `b` is not
/// `SwapConfig::LEN` bytes long or its flag byte is neither 0 nor 1.
pub fn decode_config(b: &[u8]) -> (r: Option<SwapConfig>)
    ensures
        r == parse_config(b@),
{
    if b.len() != SwapConfig::LEN {
        return None;
    }
    let flag = b[18];
    if flag != 0 && flag != 1 {
        return None;
    }
    let min_amount = u64_from_le_bytes(slice_subrange(b, 0, 8));
    let max_amount = u64_from_le_bytes(slice_subrange(b, 8, 16));
    let slippage_bps = u16_from_le_bytes(slice_subrange(b, 16, 18));
    Some(SwapConfig { min_amount, max_amount, slippage_bps, enabled: flag == 1 })
}

/// Writes a record in its stored form.
pub fn encode_record(r: &AutoSwap) -> (out: Vec<u8>)
    ensures
        out@ == record_bytes(*r),
{
    let mut out: Vec<u8> = Vec::new();
    let mut i: usize = 0;
    while i < 32
        invariant
            i <= 32,
            r.owner@.len() == 32,
            out@ == r.owner@.subrange(0, i as int),
        decreases 32 - i,
    {
        out.push(r.owner.bytes[i]);
        i = i + 1;
    }
    assert(out@ =~= r.owner@);
    let mut config = encode_config(&r.config);
    out.append(&mut config);
    out
}

/// Reads a record from its stored form; `None` when `b` is not
/// `AutoSwap::LEN` bytes long or its flag byte is neither 0 nor 1.
pub fn decode_record(b: &[u8]) -> (r: Option<AutoSwap>)
    ensures
        r is Some <==> is_record_bytes(b@),
        r matches Some(rec) ==> record_bytes(rec) == b@,
{
    if b.len() != AutoSwap::LEN {
        return None;
    }
    let config = match decode_config(slice_subrange(b, 32, AutoSwap::LEN)) {
        Some(c) => c,
        None => {
            return None;
        },
    };
    let mut bytes = [0u8; 32];
    let mut i: usize = 0;
    while i < 32
        invariant
            i <= 32,
            b@.len() == AutoSwap::LEN,
            bytes@.len() == 32,
            forall|j: int| 0 <= j < i ==> bytes@[j] == b@[j],
        decreases 32 - i,
    {
        bytes[i] = b[i];
        i = i + 1;
    }
    let owner = Pubkey { bytes };
    proof {
        let cs = b@.subrange(32, AutoSwap::LEN as int);
        config_bytes_of_parsed(cs);
        assert(owner@ =~= b@.subrange(0, 32));
        assert(b@ =~= b@.subrange(0, 32) + cs);
    }
    Some(AutoSwap { owner, config })
}

/// Stored bytes that parse as a configuration are that configuration's stored form.
pub proof fn config_bytes_of_parsed(s: Seq<u8>)
    ensures
        parse_config(s) matches Some(c) ==> config_bytes(c) == s,
{
    if let Some(c) = parse_config(s) {
        lemma_auto_spec_u64_to_from_le_bytes();
        lemma_auto_spec_u16_to_from_le_bytes();
        assert(spec_u64_to_le_bytes(c.min_amount) == s.subrange(0, 8));
        assert(spec_u64_to_le_bytes(c.max_amount) == s.subrange(8, 16));
        assert(spec_u16_to_le_bytes(c.slippage_bps) == s.subrange(16, 18));
        assert(config_bytes(c) =~= s);
    }
}

/// Reading back a stored configuration gives the configuration.
pub proof fn config_round_trip(c: SwapConfig)
    ensures
        config_bytes(c).len() == SwapConfig::LEN,
        parse_config(config_bytes(c)) == Some(c),
{
    lemma_auto_spec_u64_to_from_le_bytes();
    lemma_auto_spec_u16_to_from_le_bytes();
    let s = config_bytes(c);
    assert(s.subrange(0, 8) =~= spec_u64_to_le_bytes(c.min_amount));
    assert(s.subrange(8, 16) =~= spec_u64_to_le_bytes(c.max_amount));
    assert(s.subrange(16, 18) =~= spec_u16_to_le_bytes(c.slippage_bps));
}

/// A stored record is well formed, and no other record has the same stored
/// form: reading back what `encode_record` wrote gives the record.
pub proof fn record_round_trip(r: AutoSwap, other: AutoSwap)
    ensures
        is_record_bytes(record_bytes(r)),
        record_bytes(other) == record_bytes(r) ==> other == r,
{
    config_round_trip(r.config);
    config_round_trip(other.config);
    let s = record_bytes(r);
    assert(s.subrange(32, AutoSwap::LEN as int) =~= config_bytes(r.config));
    assert(s[50] == config_bytes(r.config)[18]);
    if record_bytes(other) == s {
        assert(other.owner@ =~= s.subrange(0, 32));
        assert(r.owner@ =~= s.subrange(0, 32));
        assert(record_bytes(other).subrange(32, AutoSwap::LEN as int) =~= config_bytes(
            other.config,
        ));
        assert(other.owner.bytes == r.owner.bytes);
    }
}

} // verus!
