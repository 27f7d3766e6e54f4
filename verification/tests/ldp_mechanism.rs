//! The mechanism itself: bucket boundaries, pass-through, the width
//! checks, and the gamma literal handling.

use vldp::bytes::{
    div_capped, div_rem_small, le_bytes_le, max_bytes, mul_add_small, pad_bytes, sub_bytes,
};
use vldp::gamma::{digits_to_le_bytes, gamma_as_bytes, validate_gamma};
use vldp::ldp::{ldp_apply, ProtocolSpec};

fn discretized_spec() -> ProtocolSpec {
    ProtocolSpec {
        input_bytes: 1,
        time_bytes: 1,
        gamma_bytes: 1,
        randomness_bytes: 2,
        k: 8,
        is_real_input: false,
    }
}

fn continuous_spec() -> ProtocolSpec {
    ProtocolSpec {
        input_bytes: 1,
        time_bytes: 1,
        gamma_bytes: 1,
        randomness_bytes: 3,
        k: 8,
        is_real_input: true,
    }
}

#[test]
fn validate_accepts_consistent_widths() {
    assert!(discretized_spec().validate());
    assert!(continuous_spec().validate());
}

#[test]
fn validate_rejects_inconsistent_widths() {
    let mut ps = discretized_spec();
    ps.randomness_bytes = 3;
    assert!(!ps.validate());
    let mut ps = discretized_spec();
    ps.k = 1;
    assert!(!ps.validate());
    let mut ps = discretized_spec();
    ps.k = 300;
    // k does not fit a one-byte input range
    assert!(!ps.validate());
    let mut ps = continuous_spec();
    ps.randomness_bytes = 2;
    assert!(!ps.validate());
}

#[test]
fn bucket_boundary_ties_resolve_downwards() {
    // k = 8 over a one-byte range: bucket width is 255 / 8 = 31.  At a
    // multiple of the width the value falls in the upper bucket; one unit
    // below it stays in the lower bucket.
    let ps = discretized_spec();
    // with gamma at the top of the range, every draw lands in a random bucket
    let gamma = vec![255u8];
    let value = vec![0u8];
    assert_eq!(ldp_apply(&ps, &gamma, &vec![0, 62], &value), 3);
    assert_eq!(ldp_apply(&ps, &gamma, &vec![0, 61], &value), 2);
    assert_eq!(ldp_apply(&ps, &gamma, &vec![0, 31], &value), 2);
    assert_eq!(ldp_apply(&ps, &gamma, &vec![0, 30], &value), 1);
    assert_eq!(ldp_apply(&ps, &gamma, &vec![0, 0], &value), 1);
}

#[test]
fn top_bucket_absorbs_the_remainder() {
    let ps = discretized_spec();
    let gamma = vec![255u8];
    let value = vec![0u8];
    // 255 / 31 = 8, clamped to the top output 8
    assert_eq!(ldp_apply(&ps, &gamma, &vec![0, 255], &value), 8);
    assert_eq!(ldp_apply(&ps, &gamma, &vec![0, 248], &value), 8);
}

#[test]
fn discretized_pass_through_returns_the_value() {
    let ps = discretized_spec();
    // gamma at the bottom of the range: nonzero randomness passes through
    let gamma = vec![0u8];
    assert_eq!(ldp_apply(&ps, &gamma, &vec![1, 200], &vec![5u8]), 5);
    assert_eq!(ldp_apply(&ps, &gamma, &vec![255, 0], &vec![8u8]), 8);
}

#[test]
fn continuous_pass_through_rounds_with_the_randomness() {
    let ps = continuous_spec();
    let gamma = vec![0u8];
    // t = 100: t * k = 800 = 3 * 255 + 35, so the output is 3 or 4
    // depending on whether the rounding block is at most the remainder 35
    assert_eq!(ldp_apply(&ps, &gamma, &vec![1, 0, 35], &vec![100u8]), 4);
    assert_eq!(ldp_apply(&ps, &gamma, &vec![1, 0, 36], &vec![100u8]), 3);
}

#[test]
fn gamma_literals_are_checked_for_range() {
    assert!(validate_gamma(&b"0.5".to_vec()));
    assert!(validate_gamma(&b"1".to_vec()));
    assert!(validate_gamma(&b"1.000".to_vec()));
    assert!(validate_gamma(&b"0.41750056279375136".to_vec()));
    assert!(validate_gamma(&b".5".to_vec()));
    assert!(validate_gamma(&b"00.10".to_vec()));
    assert!(!validate_gamma(&b"0".to_vec()));
    assert!(!validate_gamma(&b"0.000".to_vec()));
    assert!(!validate_gamma(&b"1.5".to_vec()));
    assert!(!validate_gamma(&b"2".to_vec()));
    assert!(!validate_gamma(&b"1.0.0".to_vec()));
    assert!(!validate_gamma(&b"".to_vec()));
    assert!(!validate_gamma(&b".".to_vec()));
    assert!(!validate_gamma(&b"0.5e-1".to_vec()));
}

#[test]
fn gamma_scaling_matches_known_values() {
    // 0.5 * (2^8 - 1) = 127.5, truncated to 127
    assert_eq!(gamma_as_bytes(&b"0.5".to_vec(), 1).unwrap(), vec![127u8]);
    // 1 * (2^8 - 1) = 255
    assert_eq!(gamma_as_bytes(&b"1".to_vec(), 1).unwrap(), vec![255u8]);
    // 0.5 * (2^16 - 1) = 32767.5, truncated to 32767 = 0x7fff
    assert_eq!(gamma_as_bytes(&b"0.5".to_vec(), 2).unwrap(), vec![0xff, 0x7f]);
}

#[test]
fn gamma_scaling_is_deterministic() {
    let lit = b"0.41750056279375136".to_vec();
    let a = gamma_as_bytes(&lit, 8).unwrap();
    let b = gamma_as_bytes(&lit, 8).unwrap();
    assert_eq!(a.len(), 8);
    assert_eq!(a, b);
}

#[test]
fn digit_packing_matches_and_rejects_overflow() {
    assert_eq!(digits_to_le_bytes(&vec![1, 2, 7], 1).unwrap(), vec![127u8]);
    assert_eq!(digits_to_le_bytes(&vec![2, 5, 6], 2).unwrap(), vec![0, 1]);
    assert!(digits_to_le_bytes(&vec![2, 5, 6], 1).is_err());
}

#[test]
fn byte_string_arithmetic_matches_integers() {
    // 1000 = [232, 3] little-endian
    let thousand = mul_add_small(&Vec::new(), 0, 1000);
    assert_eq!(&thousand[0..2], &[232, 3]);
    let (q, r) = div_rem_small(&thousand, 7);
    assert_eq!(r, 6);
    let (q2, r2) = div_rem_small(&q, 2);
    assert_eq!(r2, 0);
    assert_eq!(&q2[0..2], &[71, 0]);  // (1000 / 7) / 2 = 71
    let m = max_bytes(2);
    assert!(le_bytes_le(&pad_bytes(&thousand, m.len().max(thousand.len())), &pad_bytes(&m, thousand.len().max(m.len()))));
    let diff = sub_bytes(&thousand, &pad_bytes(&vec![200u8], thousand.len()));
    assert_eq!(&diff[0..2], &[32, 3]);  // 1000 - 200 = 800
    assert_eq!(div_capped(&vec![255u8], &vec![31u8], 8), 8);
    assert_eq!(div_capped(&vec![255u8], &vec![31u8], 7), 7);
    assert_eq!(div_capped(&vec![61u8], &vec![31u8], 8), 1);
}

#[test]
fn blake2s_matches_known_digests() {
    // the unkeyed Blake2s-256 digest of the empty string
    let empty = vldp::crh::Blake2s256::evaluate(&Vec::new());
    assert_eq!(
        empty,
        vec![
            0x69, 0x21, 0x7a, 0x30, 0x79, 0x90, 0x80, 0x94, 0xe1, 0x11, 0x21, 0xd0, 0x42, 0x35,
            0x4a, 0x7c, 0x1f, 0x55, 0xb6, 0x48, 0x2c, 0xa1, 0xa5, 0x1e, 0x1b, 0x25, 0x0d, 0xfd,
            0x1e, 0xd0, 0xee, 0xf9,
        ]
    );
    // and of the three bytes "abc"
    let abc = vldp::crh::Blake2s256::evaluate(&b"abc".to_vec());
    assert_eq!(
        abc,
        vec![
            0x50, 0x8c, 0x5e, 0x8c, 0x32, 0x7c, 0x14, 0xe2, 0xe1, 0xa7, 0x2b, 0xa3, 0x4e, 0xeb,
            0x45, 0x2f, 0x37, 0x45, 0x8b, 0x20, 0x9e, 0xd6, 0x3a, 0x29, 0x4d, 0x99, 0x9b, 0x4c,
            0x86, 0x67, 0x59, 0x82,
        ]
    );
    // the identity hash returns its input
    assert_eq!(vldp::crh::IdentityHash::evaluate(&b"abc".to_vec()), b"abc".to_vec());
}

#[test]
fn continuous_random_buckets_use_k_plus_one_parts() {
    // a one-byte continuous range splits into 9 buckets of width 255 / 9 = 28
    let ps = continuous_spec();
    let gamma = vec![255u8];
    let value = vec![0u8];
    assert_eq!(ldp_apply(&ps, &gamma, &vec![0, 0, 0], &value), 0);
    assert_eq!(ldp_apply(&ps, &gamma, &vec![0, 28, 0], &value), 1);
    assert_eq!(ldp_apply(&ps, &gamma, &vec![0, 62, 0], &value), 2);
    assert_eq!(ldp_apply(&ps, &gamma, &vec![0, 255, 0], &value), 8);
}
