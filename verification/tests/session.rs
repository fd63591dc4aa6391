//! Tests of the per-session commit-then-reveal state machine.

use curv::BigInt;

use multisig_schnorr::multi_sig::clone_point;
use multisig_schnorr::multi_sig::points_equal;
use multisig_schnorr::multi_sig::verify;
use multisig_schnorr::multi_sig::EphemeralKey;
use multisig_schnorr::multi_sig::KeyAgg;
use multisig_schnorr::multi_sig::KeyPair;
use multisig_schnorr::session::NonceSession;
use multisig_schnorr::session::SessionStatus;

#[test]
fn session_round_trip() {
    let kp1 = KeyPair::create();
    let kp2 = KeyPair::create();
    let pks = vec![clone_point(&kp1.public_key), clone_point(&kp2.public_key)];
    let agg1 = KeyAgg::key_aggregation_n(&pks, &0usize);
    let agg2 = KeyAgg::key_aggregation_n(&pks, &1usize);

    let mut s1 = NonceSession::start();
    let mut s2 = NonceSession::start();
    assert_eq!(s1.current_status(), SessionStatus::Created);

    // round 1: exchange and record commitments; round 2: exchange reveals
    let c1 = s1.commitment_message();
    let c2 = s2.commitment_message();
    s1.record_commitment(&c2);
    s2.record_commitment(&c1);
    let (p1, b1) = s1.reveal_message();
    let (p2, b2) = s2.reveal_message();
    s1.record_reveal(&p2, &b2);
    s2.record_reveal(&p1, &b1);
    assert_eq!(s1.current_status(), SessionStatus::Verified);
    assert_eq!(s2.current_status(), SessionStatus::Verified);

    let r1 = s1.aggregate_nonce().unwrap();
    let r2 = s2.aggregate_nonce().unwrap();
    assert!(points_equal(&r1, &r2));

    let msg: &[u8] = b"session hello";
    let c = EphemeralKey::hash_0(&r1, &agg1.apk, msg, &true);
    let sig1 = s1.partial_signature(&c, &kp1, &agg1.hash).unwrap();
    let sig2 = s2.partial_signature(&c, &kp2, &agg2.hash).unwrap();
    let (r_x, s) = EphemeralKey::add_signature_parts(&sig1, &sig2, &r1);
    assert!(verify(&s, &r_x, &agg1.apk, msg, &true).is_ok());
    assert!(verify(&s, &r_x, &agg1.apk, b"session goodbye", &true).is_err());
}

#[test]
fn session_rejects_tampered_commitment() {
    let mut s1 = NonceSession::start();
    let s2 = NonceSession::start();
    let (p2, b2) = s2.reveal_message();
    let tampered = s2.commitment_message() + 1u64;
    s1.record_commitment(&tampered);
    s1.record_reveal(&p2, &b2);
    assert_eq!(s1.current_status(), SessionStatus::Rejected);
    assert!(s1.aggregate_nonce().is_none());
    let kp = KeyPair::create();
    assert!(s1
        .partial_signature(&BigInt::from(1u64), &kp, &BigInt::from(1u64))
        .is_none());
}

#[test]
fn session_rejects_wrong_point() {
    let mut s1 = NonceSession::start();
    let s2 = NonceSession::start();
    let s3 = NonceSession::start();
    // reveal a different session's point for session 2's commitment
    let (p3, _) = s3.reveal_message();
    let (_, b2) = s2.reveal_message();
    let c2 = s2.commitment_message();
    s1.record_commitment(&c2);
    s1.record_reveal(&p3, &b2);
    assert_eq!(s1.current_status(), SessionStatus::Rejected);
}
