use bls::encoding::{accepts_encoding, concat_messages, decode_outcome, finish_encoding};
use bls::params::{init_succeeded, MCLBN_COMPILED_TIME_VAR, MCLBN_FP2_UNIT_SIZE};
use bls::protocol::affirmed;
use bls::{
    BlsError, CurveType, FieldWidths, Message, PublicKey, SecretKey, Signature, HASH_AND_DOMAIN_SIZE,
};

fn bls12_381_widths() -> FieldWidths {
    FieldWidths { fr_bytes: 32, fp_bytes: 48 }
}

fn sample_message(seed: u8) -> Message {
    let mut hash = [0u8; 32];
    for (i, b) in hash.iter_mut().enumerate() {
        *b = seed.wrapping_add(i as u8);
    }
    Message { hash, domain: [1, 0, 0, 0, 0, 0, 0, seed] }
}

#[test]
fn message_zero_is_all_zero() {
    let m = Message::zero();
    assert_eq!(m.hash, [0u8; 32]);
    assert_eq!(m.domain, [0u8; 8]);
}

#[test]
fn message_bytes_are_hash_then_domain() {
    let m = Message { hash: [0u8; 32], domain: [1, 0, 0, 0, 0, 0, 0, 0] };
    let b = m.to_bytes();
    assert_eq!(b.len(), HASH_AND_DOMAIN_SIZE);
    assert_eq!(b.len(), 40);
    assert!(b[..32].iter().all(|x| *x == 0));
    assert_eq!(&b[32..], &[1, 0, 0, 0, 0, 0, 0, 0]);
}

#[test]
fn messages_are_laid_out_in_order() {
    let m1 = sample_message(3);
    let m2 = sample_message(9);
    let b = concat_messages(&[m1, m2]);
    assert_eq!(b.len(), 80);
    assert_eq!(&b[..40], &m1.to_bytes()[..]);
    assert_eq!(&b[40..], &m2.to_bytes()[..]);
    assert!(concat_messages(&[]).is_empty());
}

#[test]
fn curve_codes() {
    assert_eq!(CurveType::BN254.code(), 0);
    assert_eq!(CurveType::BN381.code(), 1);
    assert_eq!(CurveType::SNARK.code(), 4);
    assert_eq!(CurveType::BLS12_381.code(), 5);
}

#[test]
fn compiled_time_variant_tag() {
    assert_eq!(MCLBN_COMPILED_TIME_VAR, 246);
}

#[test]
fn init_reply() {
    assert!(init_succeeded(0));
    assert!(!init_succeeded(-1));
    assert!(!init_succeeded(1));
}

#[test]
fn verification_reply() {
    assert!(affirmed(1));
    assert!(!affirmed(0));
    assert!(!affirmed(-1));
    assert!(!affirmed(2));
}

#[test]
fn malformed_hex_is_invalid_data() {
    let r = SecretKey::hex_outcome(SecretKey::zero(), 0);
    assert!(matches!(r, Err(BlsError::InvalidData)));
    let r = SecretKey::hex_outcome(SecretKey::zero(), -1);
    assert!(matches!(r, Err(BlsError::InvalidData)));
    assert!(!SecretKey::hex_accepted(0));
}

#[test]
fn parsed_hex_keeps_the_key() {
    let k = SecretKey::from_words([1, 2, 3, 4]);
    let r = SecretKey::hex_outcome(k, 64).unwrap();
    assert_eq!(r.words(), [1, 2, 3, 4]);
    assert!(SecretKey::hex_accepted(64));
}

#[test]
fn signing_reply() {
    let z = [7u64; MCLBN_FP2_UNIT_SIZE];
    let sig = Signature::from_coords(z, z, z);
    let ok = SecretKey::sign_outcome(sig, 0).unwrap();
    assert_eq!(ok.coords().0, z);
    assert!(matches!(SecretKey::sign_outcome(sig, 1), Err(BlsError::InternalError)));
    assert!(matches!(SecretKey::sign_outcome(sig, -1), Err(BlsError::InternalError)));
}

#[test]
fn aggregate_with_matching_lengths_asks_the_engine() {
    let pks = [PublicKey::zero(), PublicKey::zero()];
    let msgs = [sample_message(1), sample_message(2)];
    assert_eq!(Signature::aggregate_count(&pks, &msgs), Some(2));
    assert!(Signature::aggregate_verdict(Some(1)));
    assert!(!Signature::aggregate_verdict(Some(0)));
}

#[test]
fn aggregate_with_mismatched_lengths_is_false() {
    let pks = [PublicKey::zero(), PublicKey::zero()];
    let msgs = [sample_message(1)];
    let count = Signature::aggregate_count(&pks, &msgs);
    assert_eq!(count, None);
    assert!(!Signature::aggregate_verdict(count.map(|_| 1)));
    assert_eq!(Signature::aggregate_count(&[], &msgs), None);
}

#[test]
fn aggregate_of_nothing() {
    assert_eq!(Signature::aggregate_count(&[], &[]), Some(0));
}

#[test]
fn encoded_widths_bls12_381() {
    let w = bls12_381_widths();
    assert_eq!(SecretKey::encoded_len(&w), 32);
    assert_eq!(PublicKey::encoded_len(&w), 48);
    assert_eq!(Signature::encoded_len(&w), 96);
}

#[test]
fn encoded_widths_largest_field() {
    let w = FieldWidths { fr_bytes: u32::MAX, fp_bytes: u32::MAX };
    assert_eq!(SecretKey::encoded_len(&w), u32::MAX as u64);
    assert_eq!(Signature::encoded_len(&w), 2 * (u32::MAX as u64));
}

#[test]
fn finished_encoding_keeps_written_prefix() {
    let buf: Vec<u8> = (0u8..96).collect();
    let out = finish_encoding(buf.clone(), 48).unwrap();
    assert_eq!(out, buf[..48].to_vec());
    let all = finish_encoding(buf.clone(), 96).unwrap();
    assert_eq!(all, buf);
}

#[test]
fn nothing_written_is_fatal() {
    let buf = vec![0u8; 96];
    assert_eq!(finish_encoding(buf.clone(), 0), None);
    assert_eq!(finish_encoding(buf, 97), None);
}

#[test]
fn encoding_acceptance() {
    assert!(accepts_encoding(48, 48, 48));
    assert!(!accepts_encoding(48, 48, 0));
    assert!(!accepts_encoding(48, 48, 32));
    assert!(!accepts_encoding(0, 0, 0));
}

#[test]
fn wrong_length_bytes_are_invalid_data() {
    let r = decode_outcome(PublicKey::zero(), 47, 48, 0);
    assert!(matches!(r, Err(BlsError::InvalidData)));
    let r = decode_outcome(PublicKey::zero(), 49, 48, 48);
    assert!(matches!(r, Err(BlsError::InvalidData)));
}

#[test]
fn read_back_of_full_width_is_accepted() {
    let w = bls12_381_widths();
    let buf = vec![5u8; 96];
    let out = finish_encoding(buf, 96).unwrap();
    let sig = Signature::zero();
    let r = decode_outcome(sig, out.len(), Signature::encoded_len(&w), out.len());
    assert!(r.is_ok());
}

#[test]
fn off_curve_encoding_is_invalid_data() {
    let r = decode_outcome(SecretKey::zero(), 32, 32, 0);
    assert!(matches!(r, Err(BlsError::InvalidData)));
}

#[test]
fn key_words_round_trip() {
    let k = SecretKey::from_words([9, 8, 7, 6]);
    assert_eq!(k.words(), [9, 8, 7, 6]);
    assert_eq!(SecretKey::zero().words(), [0; 4]);
    let x = [1u64; 6];
    let y = [2u64; 6];
    let z = [3u64; 6];
    let p = PublicKey::from_coords(x, y, z);
    assert_eq!(p.coords(), (x, y, z));
    assert_eq!(PublicKey::zero().coords(), ([0; 6], [0; 6], [0; 6]));
    assert_eq!(Signature::zero().coords().2, [0; 12]);
}
