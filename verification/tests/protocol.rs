use curv::arithmetic::{BitManipulation, Zero};
use curv::elliptic::curves::secp256_k1::{Secp256k1Point, Secp256k1Scalar};
use curv::elliptic::curves::{ECPoint, ECScalar};
use curv::BigInt;
use fs_dkr::add_party::JoinMessage;
use fs_dkr::errors::FsDkrError;
use fs_dkr::refresh_message::RefreshMessage;
use kzen_paillier::{Encrypt, EncryptionKey, Paillier, RawPlaintext};
use zk_paillier::zkproofs::{DLogStatement, SALT_STRING};

fn scalar_u(x: u64) -> Secp256k1Scalar {
    ECScalar::from_bigint(&BigInt::from(x))
}

fn g_mul(s: &Secp256k1Scalar) -> Secp256k1Point {
    Secp256k1Point::generator_mul(s)
}

fn encrypt_to(ek: &EncryptionKey, m: &Secp256k1Scalar) -> BigInt {
    Paillier::encrypt(ek, RawPlaintext::from(m.to_bigint())).0.into_owned()
}

fn dummy_ek(seed: u64) -> EncryptionKey {
    EncryptionKey {
        n: BigInt::from(seed),
        nn: BigInt::from(seed) * BigInt::from(seed),
    }
}

fn dummy_statement(seed: u64) -> DLogStatement {
    DLogStatement {
        N: BigInt::from(seed),
        g: BigInt::from(2u64),
        ni: BigInt::from(3u64),
    }
}

/// Evaluates the degree-one polynomial `c0 + c1 * x` in the scalar field.
fn eval(c0: &Secp256k1Scalar, c1: &Secp256k1Scalar, x: u64) -> Secp256k1Scalar {
    c0.add(&c1.mul(&scalar_u(x)))
}

/// An honestly built refresh message from `sender`, re-sharing with the
/// degree-one polynomial `c0 + c1 * x`: curve commitments to its value at
/// every slot, and the value at every slot encrypted to the new party.
fn honest_refresh_message(
    sender: u16,
    n: u16,
    c0: &Secp256k1Scalar,
    c1: &Secp256k1Scalar,
    target_ek: &EncryptionKey,
    public_key: &Secp256k1Point,
) -> RefreshMessage {
    let mut committed = Vec::new();
    let mut encrypted = Vec::new();
    for i in 1..=(n as u64) {
        let v = eval(c0, c1, i);
        committed.push(g_mul(&v));
        encrypted.push(encrypt_to(target_ek, &v));
    }
    RefreshMessage {
        party_index: sender,
        ek: dummy_ek(100 + sender as u64),
        dlog_statement: dummy_statement(200 + sender as u64),
        points_committed_vec: committed,
        points_encrypted_vec: encrypted,
        public_key: public_key.clone(),
    }
}

#[test]
fn distribute_keeps_party_index_unset() {
    let (jm, keys) = JoinMessage::distribute().unwrap();
    assert!(jm.party_index.is_none());
    assert_eq!(
        jm.get_party_index(),
        Err(FsDkrError::NewPartyUnassignedIndexError)
    );
    assert_eq!(jm.ek.n, keys.ek.n);
}

#[test]
fn get_party_index_returns_assigned_slot() {
    let (mut jm, _keys) = JoinMessage::distribute().unwrap();
    jm.party_index = Some(7);
    assert_eq!(jm.get_party_index(), Ok(7));
}

#[test]
fn distribute_twice_yields_distinct_material() {
    let (jm1, k1) = JoinMessage::distribute().unwrap();
    let (jm2, k2) = JoinMessage::distribute().unwrap();
    assert_ne!(k1.ek.n, k2.ek.n);
    assert_ne!(jm1.dlog_statement_base_h1.N, jm2.dlog_statement_base_h1.N);
    assert_ne!(jm1.ek.n, jm1.dlog_statement_base_h1.N);
}

#[test]
fn setup_proofs_verify() {
    let (jm, _keys) = JoinMessage::distribute().unwrap();
    assert!(jm
        .composite_dlog_proof_base_h1
        .verify(&jm.dlog_statement_base_h1)
        .is_ok());
    assert!(jm
        .composite_dlog_proof_base_h2
        .verify(&jm.dlog_statement_base_h2)
        .is_ok());
    assert!(jm.dk_correctness_proof.verify(&jm.ek, SALT_STRING).is_ok());
    assert_eq!(jm.dlog_statement_base_h1.N, jm.dlog_statement_base_h2.N);
    assert_eq!(jm.dlog_statement_base_h1.g, jm.dlog_statement_base_h2.ni);
    assert_eq!(jm.dlog_statement_base_h1.ni, jm.dlog_statement_base_h2.g);
}

#[test]
fn collect_reconstructs_polynomial_share() {
    let (mut jm, keys) = JoinMessage::distribute().unwrap();
    jm.party_index = Some(3);
    // original secret polynomial f(x) = 11 + 7x, secret s = f(0) = 11
    let a0 = scalar_u(11);
    let a1 = scalar_u(7);
    let s1 = eval(&a0, &a1, 1);
    let s2 = eval(&a0, &a1, 2);
    // sender k re-shares its share f(k) with polynomial g_k(x) = f(k) + b_k x
    let b1 = scalar_u(5);
    let b2 = scalar_u(9);
    let public_key = g_mul(&a0);
    let m1 = honest_refresh_message(1, 3, &s1, &b1, &keys.ek, &public_key);
    let m2 = honest_refresh_message(2, 3, &s2, &b2, &keys.ek, &public_key);
    let msgs = [m1, m2];
    let lk = jm.collect(&msgs, keys, &[], 1, 3).unwrap();

    // For senders {1, 2}, the Lagrange weights at zero are 2 and -1, so the
    // new sharing polynomial is h(x) = 2 g_1(x) - g_2(x), with h(0) = s.
    let h = |x: u64| {
        let g1 = eval(&s1, &b1, x);
        let g2 = eval(&s2, &b2, x);
        g1.add(&g1).sub(&g2)
    };
    assert_eq!(h(0).to_bigint(), a0.to_bigint());
    assert_eq!(lk.keys_linear.x_i.to_bigint(), h(3).to_bigint());
    assert_eq!(lk.keys_linear.y, g_mul(&h(3)));
    for i in 0..3u64 {
        assert_eq!(lk.pk_vec[i as usize], g_mul(&h(i + 1)));
    }
    assert_eq!(lk.pk_vec[2], g_mul(&lk.keys_linear.x_i));
    assert_eq!(lk.y_sum_s, public_key);
    assert_eq!(lk.i, 3);
    assert_eq!(lk.t, 1);
    assert_eq!(lk.n, 3);
    assert_eq!(lk.vss_scheme.threshold, 1);
    assert_eq!(lk.vss_scheme.share_count, 3);
    assert_eq!(lk.vss_scheme.commitments.len(), 2);
}

#[test]
fn collect_is_deterministic_for_fixed_inputs() {
    let (mut jm, keys) = JoinMessage::distribute().unwrap();
    jm.party_index = Some(3);
    let a0 = scalar_u(21);
    let a1 = scalar_u(4);
    let public_key = g_mul(&a0);
    let m1 = honest_refresh_message(1, 3, &eval(&a0, &a1, 1), &scalar_u(6), &keys.ek, &public_key);
    let m2 = honest_refresh_message(2, 3, &eval(&a0, &a1, 2), &scalar_u(8), &keys.ek, &public_key);
    let msgs = [m1, m2];
    let lk1 = jm.collect(&msgs, keys.clone(), &[], 1, 3).unwrap();
    let lk2 = jm.collect(&msgs, keys, &[], 1, 3).unwrap();
    assert_eq!(
        lk1.keys_linear.x_i.to_bigint(),
        lk2.keys_linear.x_i.to_bigint()
    );
    for i in 0..3 {
        assert_eq!(lk1.pk_vec[i], lk2.pk_vec[i]);
    }
    assert_eq!(lk1.y_sum_s, lk2.y_sum_s);
}

#[test]
fn collect_rejects_unassigned_self() {
    let (jm, keys) = JoinMessage::distribute().unwrap();
    let a0 = scalar_u(11);
    let public_key = g_mul(&a0);
    let m1 = honest_refresh_message(1, 3, &scalar_u(18), &scalar_u(5), &keys.ek, &public_key);
    let m2 = honest_refresh_message(2, 3, &scalar_u(25), &scalar_u(9), &keys.ek, &public_key);
    let r = jm.collect(&[m1, m2], keys, &[], 1, 3);
    assert!(matches!(r, Err(FsDkrError::NewPartyUnassignedIndexError)));
}

#[test]
fn collect_rejects_unassigned_join_message() {
    let (mut jm, keys) = JoinMessage::distribute().unwrap();
    jm.party_index = Some(3);
    let mut other = jm.clone();
    other.party_index = None;
    let public_key = g_mul(&scalar_u(11));
    let m1 = honest_refresh_message(1, 3, &scalar_u(18), &scalar_u(5), &keys.ek, &public_key);
    let m2 = honest_refresh_message(2, 3, &scalar_u(25), &scalar_u(9), &keys.ek, &public_key);
    let r = jm.collect(&[m1, m2], keys, &[other], 1, 3);
    assert!(matches!(r, Err(FsDkrError::NewPartyUnassignedIndexError)));
}

#[test]
fn collect_rejects_public_key_mismatch() {
    let (mut jm, keys) = JoinMessage::distribute().unwrap();
    jm.party_index = Some(3);
    let pk_a = g_mul(&scalar_u(11));
    let pk_b = g_mul(&scalar_u(12));
    let m1 = honest_refresh_message(1, 3, &scalar_u(18), &scalar_u(5), &keys.ek, &pk_a);
    let m2 = honest_refresh_message(2, 3, &scalar_u(25), &scalar_u(9), &keys.ek, &pk_b);
    let r = jm.collect(&[m1, m2], keys, &[], 1, 3);
    assert!(matches!(r, Err(FsDkrError::BroadcastedPublicKeyError)));
}

#[test]
fn validate_collect_names_the_first_broken_rule() {
    let pk = g_mul(&scalar_u(1));
    let tek = dummy_ek(55);
    let m1 = honest_refresh_message(1, 3, &scalar_u(2), &scalar_u(3), &tek, &pk);
    let m2 = honest_refresh_message(2, 3, &scalar_u(4), &scalar_u(5), &tek, &pk);

    assert_eq!(RefreshMessage::validate_collect(&[m1.clone()], 1, 3),
        Err(FsDkrError::PartiesCountError));

    let mut out_of_range = m2.clone();
    out_of_range.party_index = 9;
    assert_eq!(
        RefreshMessage::validate_collect(&[m1.clone(), out_of_range], 1, 3),
        Err(FsDkrError::PartyIndexRangeError)
    );

    assert_eq!(
        RefreshMessage::validate_collect(&[m1.clone(), m1.clone()], 1, 3),
        Err(FsDkrError::DuplicatePartyIndexError)
    );

    let mut short = honest_refresh_message(2, 2, &scalar_u(4), &scalar_u(5), &tek, &pk);
    short.party_index = 2;
    assert_eq!(
        RefreshMessage::validate_collect(&[m1.clone(), short], 1, 3),
        Err(FsDkrError::SizeMismatchError)
    );

    let mut bad_cipher = m2.clone();
    bad_cipher.points_encrypted_vec[0] = BigInt::zero() - BigInt::from(5u64);
    assert_eq!(
        RefreshMessage::validate_collect(&[m1.clone(), bad_cipher], 1, 3),
        Err(FsDkrError::InvalidCiphertextError)
    );

    assert_eq!(RefreshMessage::validate_collect(&[m1, m2], 1, 3), Ok(()));
}

#[test]
fn collect_pads_unknown_slots_with_placeholders() {
    let (mut jm, keys) = JoinMessage::distribute().unwrap();
    jm.party_index = Some(3);
    let my_n = keys.ek.n.clone();
    let a0 = scalar_u(11);
    let public_key = g_mul(&a0);
    let m1 = honest_refresh_message(1, 5, &scalar_u(18), &scalar_u(5), &keys.ek, &public_key);
    let m2 = honest_refresh_message(2, 5, &scalar_u(25), &scalar_u(9), &keys.ek, &public_key);
    let sender_n_1 = m1.ek.n.clone();
    let sender_n_2 = m2.ek.n.clone();
    let lk = jm.collect(&[m1, m2], keys, &[], 1, 5).unwrap();

    assert_eq!(lk.paillier_key_vec.len(), 5);
    assert_eq!(lk.h1_h2_n_tilde_vec.len(), 5);
    // slots 1..=3 carry the live sources' material
    assert_eq!(lk.paillier_key_vec[0].n, sender_n_1);
    assert_eq!(lk.paillier_key_vec[1].n, sender_n_2);
    assert_eq!(lk.paillier_key_vec[2].n, my_n);
    assert_eq!(lk.h1_h2_n_tilde_vec[2].N, jm.dlog_statement_base_h1.N);
    // slots 4 and 5 are well-formed placeholders: a zero-valued key and a
    // fresh unlinked statement each
    assert_eq!(lk.paillier_key_vec[3].n, BigInt::zero());
    assert_eq!(lk.paillier_key_vec[3].nn, BigInt::zero());
    assert_eq!(lk.paillier_key_vec[4].n, BigInt::zero());
    assert!(lk.h1_h2_n_tilde_vec[3].N.bit_length() >= 2040);
    assert!(lk.h1_h2_n_tilde_vec[4].N.bit_length() >= 2040);
    assert_ne!(lk.h1_h2_n_tilde_vec[3].N, lk.h1_h2_n_tilde_vec[4].N);
}

#[test]
fn join_messages_take_precedence_in_the_key_vectors() {
    let (mut jm, keys) = JoinMessage::distribute().unwrap();
    jm.party_index = Some(3);
    let mut other = jm.clone();
    other.party_index = Some(1);
    other.ek = dummy_ek(77);
    let public_key = g_mul(&scalar_u(11));
    let m1 = honest_refresh_message(1, 3, &scalar_u(18), &scalar_u(5), &keys.ek, &public_key);
    let m2 = honest_refresh_message(2, 3, &scalar_u(25), &scalar_u(9), &keys.ek, &public_key);
    let lk = jm.collect(&[m1, m2], keys, &[other], 1, 3).unwrap();
    // the join message for slot 1 overrides the refresh sender's key
    assert_eq!(lk.paillier_key_vec[0].n, BigInt::from(77u64));
    assert_eq!(lk.paillier_key_vec[1].n, BigInt::from(102u64));
}
