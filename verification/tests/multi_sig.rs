//! End-to-end tests of the two-round aggregate signature protocol, run
//! against the real `curv` primitives.

use curv::arithmetic::Converter;
use curv::arithmetic::Modulo;
use curv::elliptic::curves::Scalar;
use curv::elliptic::curves::Secp256k1;
use curv::BigInt;
use sha2::Digest;
use sha2::Sha256;

use multisig_schnorr::algebra::GroupPoint;
use multisig_schnorr::multi_sig::clone_point;
use multisig_schnorr::multi_sig::point_encoding;
use multisig_schnorr::multi_sig::point_x_coordinate;
use multisig_schnorr::multi_sig::points_equal;
use multisig_schnorr::multi_sig::verify;
use multisig_schnorr::multi_sig::EphemeralKey;
use multisig_schnorr::multi_sig::KeyAgg;
use multisig_schnorr::multi_sig::KeyPair;

/// Runs the full two-party protocol on `msg` and returns
/// `(r_x, s, apk)`.
fn run_two_party(msg: &[u8], musig_bit: bool) -> (BigInt, BigInt, GroupPoint) {
    let kp1 = KeyPair::create();
    let kp2 = KeyPair::create();
    let pks = vec![clone_point(&kp1.public_key), clone_point(&kp2.public_key)];

    let agg = KeyAgg::key_aggregation(&kp1.public_key, &kp2.public_key);
    let a1 = agg.hash;
    let a2 = KeyAgg::key_aggregation_n(&pks, &1usize).hash;

    let eph1 = EphemeralKey::create();
    let eph2 = EphemeralKey::create();
    assert!(EphemeralKey::test_com(
        &eph1.keypair.public_key,
        &eph1.blind_factor,
        &eph1.commitment
    ));
    assert!(EphemeralKey::test_com(
        &eph2.keypair.public_key,
        &eph2.blind_factor,
        &eph2.commitment
    ));

    let r_hat =
        EphemeralKey::add_ephemeral_pub_keys(&eph1.keypair.public_key, &eph2.keypair.public_key);
    let c = EphemeralKey::hash_0(&r_hat, &agg.apk, msg, &musig_bit);
    let s1 = EphemeralKey::sign(&eph1, &c, &kp1, &a1);
    let s2 = EphemeralKey::sign(&eph2, &c, &kp2, &a2);
    let (r_x, s) = EphemeralKey::add_signature_parts(&s1, &s2, &r_hat);
    (r_x, s, agg.apk)
}

#[test]
fn two_party_round_trip() {
    let (r_x, s, apk) = run_two_party(b"hello", true);
    assert!(verify(&s, &r_x, &apk, b"hello", &true).is_ok());
    assert!(verify(&s, &r_x, &apk, b"goodbye", &true).is_err());
}

#[test]
fn n_party_round_trip_three_signers() {
    let kps = [KeyPair::create(), KeyPair::create(), KeyPair::create()];
    let pks = vec![
        clone_point(&kps[0].public_key),
        clone_point(&kps[1].public_key),
        clone_point(&kps[2].public_key),
    ];
    let aggs = [
        KeyAgg::key_aggregation_n(&pks, &0usize),
        KeyAgg::key_aggregation_n(&pks, &1usize),
        KeyAgg::key_aggregation_n(&pks, &2usize),
    ];
    assert!(points_equal(&aggs[0].apk, &aggs[1].apk));
    assert!(points_equal(&aggs[0].apk, &aggs[2].apk));

    let ephs = [
        EphemeralKey::create(),
        EphemeralKey::create(),
        EphemeralKey::create(),
    ];
    for e in &ephs {
        assert!(EphemeralKey::test_com(
            &e.keypair.public_key,
            &e.blind_factor,
            &e.commitment
        ));
    }
    let r12 = EphemeralKey::add_ephemeral_pub_keys(
        &ephs[0].keypair.public_key,
        &ephs[1].keypair.public_key,
    );
    let r_hat = EphemeralKey::add_ephemeral_pub_keys(&r12, &ephs[2].keypair.public_key);

    let msg: &[u8] = b"three of us";
    let c = EphemeralKey::hash_0(&r_hat, &aggs[0].apk, msg, &true);
    let s1 = EphemeralKey::sign(&ephs[0], &c, &kps[0], &aggs[0].hash);
    let s2 = EphemeralKey::sign(&ephs[1], &c, &kps[1], &aggs[1].hash);
    let s3 = EphemeralKey::sign(&ephs[2], &c, &kps[2], &aggs[2].hash);
    let (_, s12) = EphemeralKey::add_signature_parts(&s1, &s2, &r_hat);
    let (r_x, s) = EphemeralKey::add_signature_parts(&s12, &s3, &r_hat);
    assert!(verify(&s, &r_x, &aggs[0].apk, msg, &true).is_ok());
    assert!(verify(&s, &r_x, &aggs[0].apk, b"three of them", &true).is_err());
}

#[test]
fn aggregation_two_matches_n() {
    let kp1 = KeyPair::create();
    let kp2 = KeyPair::create();
    let pks = vec![clone_point(&kp1.public_key), clone_point(&kp2.public_key)];
    let agg_two = KeyAgg::key_aggregation(&kp1.public_key, &kp2.public_key);
    let agg_n0 = KeyAgg::key_aggregation_n(&pks, &0usize);
    assert!(points_equal(&agg_two.apk, &agg_n0.apk));
    assert_eq!(agg_two.hash, agg_n0.hash);
    // the second party's coefficient, recomputed from the same list
    let agg_n1 = KeyAgg::key_aggregation_n(&pks, &1usize);
    assert!(points_equal(&agg_two.apk, &agg_n1.apk));
    assert_ne!(agg_n0.hash, agg_n1.hash);
}

#[test]
fn aggregation_order_sensitive() {
    let kp1 = KeyPair::create();
    let kp2 = KeyPair::create();
    let agg12 = KeyAgg::key_aggregation(&kp1.public_key, &kp2.public_key);
    let agg21 = KeyAgg::key_aggregation(&kp2.public_key, &kp1.public_key);
    assert!(!points_equal(&agg12.apk, &agg21.apk));
}

#[test]
fn aggregation_checked_rejects_bad_input() {
    let kp1 = KeyPair::create();
    let kp2 = KeyPair::create();
    let empty: Vec<GroupPoint> = Vec::new();
    assert!(KeyAgg::key_aggregation_n_checked(&empty, &0usize).is_none());
    let pks = vec![clone_point(&kp1.public_key), clone_point(&kp2.public_key)];
    assert!(KeyAgg::key_aggregation_n_checked(&pks, &2usize).is_none());
    let agg = KeyAgg::key_aggregation_n_checked(&pks, &0usize).unwrap();
    let agg_direct = KeyAgg::key_aggregation(&kp1.public_key, &kp2.public_key);
    assert!(points_equal(&agg.apk, &agg_direct.apk));
    assert_eq!(agg.hash, agg_direct.hash);
    let agg2 = KeyAgg::key_aggregation_checked(&kp1.public_key, &kp2.public_key).unwrap();
    assert!(points_equal(&agg2.apk, &agg_direct.apk));
}

#[test]
fn commitment_accepts_exact_reveal() {
    let eph = EphemeralKey::create();
    assert!(EphemeralKey::test_com(
        &eph.keypair.public_key,
        &eph.blind_factor,
        &eph.commitment
    ));
    assert_eq!(
        EphemeralKey::test_com_checked(&eph.keypair.public_key, &eph.blind_factor, &eph.commitment),
        Some(true)
    );
}

#[test]
fn commitment_rejects_other_point() {
    let eph = EphemeralKey::create();
    let other = EphemeralKey::create();
    assert!(!EphemeralKey::test_com(
        &other.keypair.public_key,
        &eph.blind_factor,
        &eph.commitment
    ));
}

#[test]
fn commitment_rejects_tampering() {
    let eph = EphemeralKey::create();
    let tampered_comm = eph.commitment.clone() + 1u64;
    assert!(!EphemeralKey::test_com(
        &eph.keypair.public_key,
        &eph.blind_factor,
        &tampered_comm
    ));
    let tampered_blind = eph.blind_factor.clone() + 1u64;
    assert!(!EphemeralKey::test_com(
        &eph.keypair.public_key,
        &tampered_blind,
        &eph.commitment
    ));
}

#[test]
fn forgery_rejected() {
    let (r_x, s, apk) = run_two_party(b"pay me", true);
    let q = Scalar::<Secp256k1>::group_order();
    let s_bad = BigInt::mod_add(&s, &BigInt::from(1u64), q);
    assert!(verify(&s_bad, &r_x, &apk, b"pay me", &true).is_err());
    let r_bad = r_x.clone() + 1u64;
    assert!(verify(&s, &r_bad, &apk, b"pay me", &true).is_err());
    assert!(verify(&s, &r_x, &apk, b"pay me", &true).is_ok());
}

#[test]
fn domain_separation() {
    let (r_x, s, apk) = run_two_party(b"mode test", true);
    assert!(verify(&s, &r_x, &apk, b"mode test", &true).is_ok());
    assert!(verify(&s, &r_x, &apk, b"mode test", &false).is_err());

    let (r_x2, s2, apk2) = run_two_party(b"mode test", false);
    assert!(verify(&s2, &r_x2, &apk2, b"mode test", &false).is_ok());
    assert!(verify(&s2, &r_x2, &apk2, b"mode test", &true).is_err());
}

#[test]
fn partial_sums_commute() {
    let eph1 = EphemeralKey::create();
    let eph2 = EphemeralKey::create();
    let r_hat =
        EphemeralKey::add_ephemeral_pub_keys(&eph1.keypair.public_key, &eph2.keypair.public_key);
    let s1 = BigInt::from(123456u64);
    let s2 = BigInt::from(654321u64);
    let (rx_a, sum_a) = EphemeralKey::add_signature_parts(&s1, &s2, &r_hat);
    let (rx_b, sum_b) = EphemeralKey::add_signature_parts(&s2, &s1, &r_hat);
    assert_eq!(rx_a, rx_b);
    assert_eq!(sum_a, sum_b);
}

#[test]
fn deterministic_keypair_from_seed() {
    let kp_a = KeyPair::create_from_private_key(&BigInt::from(42u64));
    let kp_b = KeyPair::create_from_private_key(&BigInt::from(42u64));
    assert!(points_equal(&kp_a.public_key, &kp_b.public_key));
    // the secret is reduced modulo the group order
    let q = Scalar::<Secp256k1>::group_order();
    let kp_c = KeyPair::create_from_private_key(&(q.clone() + 42u64));
    assert!(points_equal(&kp_a.public_key, &kp_c.public_key));
    let kp_d = KeyPair::create_from_private_key(&BigInt::from(43u64));
    assert!(!points_equal(&kp_a.public_key, &kp_d.public_key));
}

#[test]
fn deterministic_nonce_binds_message() {
    let kp = KeyPair::create_from_private_key(&BigInt::from(7u64));
    let eph_a = EphemeralKey::create_from_private_key(&kp, b"m1");
    let eph_b = EphemeralKey::create_from_private_key(&kp, b"m1");
    assert!(points_equal(
        &eph_a.keypair.public_key,
        &eph_b.keypair.public_key
    ));
    let eph_c = EphemeralKey::create_from_private_key(&kp, b"m2");
    assert!(!points_equal(
        &eph_a.keypair.public_key,
        &eph_c.keypair.public_key
    ));
}

#[test]
fn deterministic_nonce_commitment_verifies() {
    let kp = KeyPair::create_from_private_key(&BigInt::from(11u64));
    let eph = EphemeralKey::create_from_private_key(&kp, b"bound message");
    assert!(EphemeralKey::test_com(
        &eph.keypair.public_key,
        &eph.blind_factor,
        &eph.commitment
    ));
    let checked = EphemeralKey::create_from_private_key_checked(&kp, b"bound message").unwrap();
    assert!(EphemeralKey::test_com(
        &checked.keypair.public_key,
        &checked.blind_factor,
        &checked.commitment
    ));
    assert!(points_equal(
        &eph.keypair.public_key,
        &checked.keypair.public_key
    ));
}

#[test]
fn challenge_matches_manual_sha256() {
    let kp1 = KeyPair::create();
    let kp2 = KeyPair::create();
    let agg = KeyAgg::key_aggregation(&kp1.public_key, &kp2.public_key);
    let eph = EphemeralKey::create();
    let r_hat = clone_point(&eph.keypair.public_key);
    let msg: &[u8] = b"hello";

    let r_x = point_x_coordinate(&r_hat).unwrap();
    let apk_b = point_encoding(&agg.apk);
    let mut h = Sha256::new();
    h.update(&BigInt::from(0u64).to_bytes());
    h.update(&r_x.to_bytes());
    h.update(&apk_b.to_bytes());
    h.update(&BigInt::from_bytes(msg).to_bytes());
    let expected = BigInt::from_bytes(h.finalize().as_ref());
    assert_eq!(EphemeralKey::hash_0(&r_hat, &agg.apk, msg, &true), expected);

    let mut h2 = Sha256::new();
    h2.update(&r_x.to_bytes());
    h2.update(&apk_b.to_bytes());
    h2.update(&BigInt::from_bytes(msg).to_bytes());
    let expected2 = BigInt::from_bytes(h2.finalize().as_ref());
    assert_eq!(EphemeralKey::hash_0(&r_hat, &agg.apk, msg, &false), expected2);
    assert_ne!(expected, expected2);
}

#[test]
fn commitment_matches_manual_sha256() {
    let kp = KeyPair::create();
    let x = point_x_coordinate(&kp.public_key).unwrap();
    let blind = BigInt::from(77u64);
    let mut h = Sha256::new();
    h.update(&x.to_bytes());
    h.update(&blind.to_bytes());
    let comm = BigInt::from_bytes(h.finalize().as_ref());
    assert!(EphemeralKey::test_com(&kp.public_key, &blind, &comm));
    assert!(!EphemeralKey::test_com(
        &kp.public_key,
        &blind,
        &(comm + 1u64)
    ));
}

#[test]
fn sign_matches_formula() {
    let q = Scalar::<Secp256k1>::group_order();
    let kp = KeyPair::create_from_private_key(&BigInt::from(7u64));
    let eph = EphemeralKey::create_from_private_key(&kp, b"m");

    // the nonce is H(private_key, message) reduced modulo q
    let mut h = Sha256::new();
    h.update(&BigInt::from(7u64).to_bytes());
    h.update(&BigInt::from_bytes(b"m").to_bytes());
    let nonce = BigInt::from_bytes(h.finalize().as_ref()).modulus(q);

    let c = BigInt::from(99u64);
    let a = BigInt::from(5u64);
    let expected = BigInt::mod_add(
        &nonce,
        &BigInt::mod_mul(&c, &BigInt::mod_mul(&BigInt::from(7u64), &a, q), q),
        q,
    );
    assert_eq!(EphemeralKey::sign(&eph, &c, &kp, &a), expected);
}

#[test]
fn empty_message_round_trip() {
    let (r_x, s, apk) = run_two_party(b"", true);
    assert!(verify(&s, &r_x, &apk, b"", &true).is_ok());
    assert!(verify(&s, &r_x, &apk, b"x", &true).is_err());
}
