//! Tests of the 256-bit arithmetic, the hit test and the small data types.
use phala_mining::error::{AttestationError, Error};
use phala_mining::messaging::{HeartbeatChallenge, MiningInfoUpdateEvent};
use phala_mining::slashing::check_pubkey_hit_target;
use phala_mining::state::Phala;
use phala_mining::types::EcdhP256PublicKey;
use phala_mining::u256::{u256_target, U256};

fn u256_of(w3: u64, w2: u64, w1: u64, w0: u64) -> U256 {
    U256 { w0, w1, w2, w3 }
}

#[test]
fn from_be_bytes_reads_big_endian() {
    let mut bytes = [0u8; 32];
    for (i, b) in bytes.iter_mut().enumerate() {
        *b = i as u8;
    }
    let v = U256::from_be_bytes(&bytes);
    assert_eq!(v.w3, 0x0001020304050607);
    assert_eq!(v.w2, 0x08090a0b0c0d0e0f);
    assert_eq!(v.w1, 0x1011121314151617);
    assert_eq!(v.w0, 0x18191a1b1c1d1e1f);
}

#[test]
fn le_orders_by_value() {
    let small = u256_of(0, 1, 0, 0);
    let large = u256_of(1, 0, 0, 0);
    assert!(small.le(large));
    assert!(!large.le(small));
    assert!(small.le(small));
    let a = u256_of(0, 0, 5, 9);
    let b = u256_of(0, 0, 6, 1);
    assert!(a.le(b));
    assert!(!b.le(a));
}

#[test]
fn xor_is_limbwise() {
    let a = u256_of(0xff00, 0x0f, 1, 2);
    let b = u256_of(0x00ff, 0x0f, 3, 2);
    let x = a.xor(b);
    assert_eq!(x.w3, 0xffff);
    assert_eq!(x.w2, 0);
    assert_eq!(x.w1, 2);
    assert_eq!(x.w0, 0);
}

#[test]
fn target_of_whole_fraction_is_max() {
    let t = u256_target(1, 1);
    assert_eq!(t.w0, u64::MAX);
    assert_eq!(t.w1, u64::MAX);
    assert_eq!(t.w2, u64::MAX);
    assert_eq!(t.w3, u64::MAX);
}

#[test]
fn target_of_half_is_half_of_max() {
    let t = u256_target(1, 2);
    assert_eq!(t.w3, 0x7fffffffffffffff);
    assert_eq!(t.w2, u64::MAX);
    assert_eq!(t.w1, u64::MAX);
    assert_eq!(t.w0, u64::MAX);
}

#[test]
fn target_of_three_quarters() {
    let t = u256_target(3, 4);
    assert_eq!(t.w3, 0xbfffffffffffffff);
    assert_eq!(t.w2, u64::MAX);
    assert_eq!(t.w1, u64::MAX);
    assert_eq!(t.w0, 0xfffffffffffffffd);
}

fn hex_to_bytes(hex: &str) -> Vec<u8> {
    let chars: Vec<u8> = hex.as_bytes().to_vec();
    let mut out = Vec::new();
    let digit = |c: u8| -> u8 {
        match c {
            b'0'..=b'9' => c - b'0',
            b'a'..=b'f' => c - b'a' + 10,
            _ => panic!("not a hex digit"),
        }
    };
    for pair in chars.chunks(2) {
        out.push(digit(pair[0]) * 16 + digit(pair[1]));
    }
    out
}

#[test]
fn hit_uses_the_real_blake2_digest() {
    // Blake2b-256 of "abc", a published test vector.
    let expected = hex_to_bytes("bddd813c634239723171ef3fee98579b94964e3bb1cb3e427262c8c068d52319");
    assert_eq!(sp_core_hashing::blake2_256(b"abc").to_vec(), expected);

    // A challenge whose seed is exactly the key's digest is hit even with a
    // zero target, because the masked identity is zero.
    let digest = sp_core_hashing::blake2_256(b"abc");
    let seed = U256::from_be_bytes(&digest);
    let zero = U256::zero();
    let ch = HeartbeatChallenge { seed, online_target: zero };
    assert!(check_pubkey_hit_target(b"abc", &ch));

    // With any other seed and a zero target, nothing hits.
    let ch2 = HeartbeatChallenge { seed: zero, online_target: zero };
    assert!(!check_pubkey_hit_target(b"abc", &ch2));
}

#[test]
fn hit_is_monotonic_in_the_target() {
    let digest = sp_core_hashing::blake2_256(b"worker-key");
    let seed = U256::from_be_bytes(&[0x5au8; 32]);
    let masked = U256::from_be_bytes(&digest).xor(seed);
    let ch_exact = HeartbeatChallenge { seed, online_target: masked };
    let ch_max = HeartbeatChallenge { seed, online_target: u256_target(1, 1) };
    assert!(check_pubkey_hit_target(b"worker-key", &ch_exact));
    assert!(check_pubkey_hit_target(b"worker-key", &ch_max));
    let ch_zero = HeartbeatChallenge { seed, online_target: U256::zero() };
    assert!(!check_pubkey_hit_target(b"worker-key", &ch_zero));
}

#[test]
fn clipped_target_number_caps_by_heartbeat_rate() {
    // target=20 workers=5 maxhb=2 round_blocks=300:
    // min(20 * 100000, 2 * 5 * 100000 / 300) = min(2000000, 3333) = 3333.
    let p = Phala::new(300, 2, 100, 50);
    assert_eq!(p.clipped_target_number(20, 5), 3333);
    // With plenty of workers the configured target dominates.
    let q = Phala::new(10, 2, 100, 50);
    assert_eq!(q.clipped_target_number(1, 50000), 100000);
}

#[test]
fn ecdh_key_reads_exactly_65_bytes() {
    let raw = [7u8; 65];
    let k = EcdhP256PublicKey::try_from(&raw).unwrap();
    assert_eq!(k.0, raw);
    assert!(EcdhP256PublicKey::try_from(&[7u8; 64]).is_err());
    let d = EcdhP256PublicKey::default();
    assert_eq!(d.0, [0u8; 65]);
}

#[test]
fn mining_info_update_event_emptiness() {
    let ev = MiningInfoUpdateEvent::new(12345);
    assert_eq!(ev.timestamp_ms, 12345);
    assert!(ev.is_empty());
    let mut ev2 = MiningInfoUpdateEvent::new(1);
    ev2.offline.push(vec![1, 2, 3]);
    assert!(!ev2.is_empty());
}

#[test]
fn attestation_errors_map_into_module_errors() {
    assert_eq!(Error::from(AttestationError::InvalidIASSigningCert), Error::InvalidIASSigningCert);
    assert_eq!(Error::from(AttestationError::InvalidReport), Error::InvalidInput);
    assert_eq!(Error::from(AttestationError::InvalidQuoteStatus), Error::InvalidQuoteStatus);
    assert_eq!(Error::from(AttestationError::BadIASReport), Error::BadIASReport);
    assert_eq!(Error::from(AttestationError::OutdatedIASReport), Error::OutdatedIASReport);
    assert_eq!(
        Error::from(AttestationError::UnknownQuoteBodyFormat),
        Error::UnknownQuoteBodyFormat
    );
}

#[test]
fn extend_mrenclave_concatenates_in_whitelist_order() {
    let rec = Phala::extend_mrenclave(&[1, 2], &[7, 8], &[3], &[4]);
    assert_eq!(rec, vec![1, 2, 3, 4, 7, 8]);
}
