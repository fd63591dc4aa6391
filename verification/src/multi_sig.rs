//! The verified protocol logic: key aggregation, the commit-then-reveal
//! nonce exchange, Fiat-Shamir challenge derivation, partial signing,
//! signature combination and verification.

use vstd::prelude::*;

use curv::BigInt;

use crate::algebra::bigint_clone;
use crate::algebra::GroupPoint;
use crate::algebra::GroupScalar;
use crate::algebra::bigint_eq;
use crate::algebra::bigint_from_bytes;
use crate::algebra::bigint_from_u64;
use crate::algebra::bigint_mod_add;
use crate::algebra::bigint_mod_mul;
use crate::algebra::bigint_mod_sub;
use crate::algebra::bytes_int;
use crate::algebra::commit_fresh;
use crate::algebra::commit_model;
use crate::algebra::commit_with_blinding;
use crate::algebra::curve_order;
use crate::algebra::add_model;
use crate::algebra::gen_mul;
use crate::algebra::generator_mul;
use crate::algebra::group_order;
use crate::algebra::hash_bigints;
use crate::algebra::hash_ints;
use crate::algebra::int_value;
use crate::algebra::is_zero_model;
use crate::algebra::mul_model;
use crate::algebra::point_add;
use crate::algebra::point_clone;
use crate::algebra::point_is_zero;
use crate::algebra::point_model;
use crate::algebra::point_mul;
use crate::algebra::point_to_bigint;
use crate::algebra::point_x;
use crate::algebra::scalar_from_bigint;
use crate::algebra::scalar_random;
use crate::algebra::scalar_to_bigint;
use crate::algebra::scalar_value;
use crate::algebra::x_coord_of;

verus! {

/// A signer's long-term or ephemeral key pair: a secret scalar and the
/// public point `generator * secret`.
pub struct KeyPair {
    pub public_key: GroupPoint,
    private_key: GroupScalar,
}

impl KeyPair {
    /// The secret scalar's value. Kept opaque outside this module, as the
    /// secret itself is.
    pub closed spec fn secret(self) -> int {
        scalar_value(self.private_key)
    }

    /// The model of the public point.
    pub closed spec fn point(self) -> int {
        point_model(self.public_key)
    }

    /// Well-formed key pair: the secret is a reduced scalar and the public
    /// point is the generator times it.
    pub closed spec fn wf(self) -> bool {
        &&& 0 <= scalar_value(self.private_key) < group_order()
        &&& point_model(self.public_key) == gen_mul(scalar_value(self.private_key))
    }

    /// Sample a fresh key pair: a uniformly random non-zero secret scalar
    /// and its public point.
    pub fn create() -> (r: KeyPair)
        ensures
            r.wf(),
            1 <= r.secret() < group_order(),
            r.point() == gen_mul(r.secret()),
            !is_zero_model(r.point()),
    {
        let private_key = scalar_random();
        let public_key = generator_mul(&private_key);
        KeyPair { public_key, private_key }
    }

    /// Derive a key pair deterministically from a caller-supplied secret,
    /// reduced modulo the group order.
    pub fn create_from_private_key(private_key: &BigInt) -> (r: KeyPair)
        ensures
            r.wf(),
            r.secret() == int_value(*private_key) % group_order(),
            r.point() == gen_mul(r.secret()),
    {
        let sk = scalar_from_bigint(private_key);
        let public_key = generator_mul(&sk);
        proof {
            vstd::arithmetic::div_mod::lemma_mod_bound(
                int_value(*private_key),
                group_order(),
            );
        }
        KeyPair { public_key, private_key: sk }
    }

    /// A copy of the public point.
    pub fn public_point(&self) -> (r: GroupPoint)
        ensures
            point_model(r) == self.point(),
    {
        point_clone(&self.public_key)
    }
}

/// Whether two points are the same: their compressed encodings are equal.
pub fn points_equal(a: &GroupPoint, b: &GroupPoint) -> (r: bool)
    ensures
        r == (point_model(*a) == point_model(*b)),
{
    let a_b = point_to_bigint(a);
    let b_b = point_to_bigint(b);
    bigint_eq(&a_b, &b_b)
}

/// A copy of a point.
pub fn clone_point(p: &GroupPoint) -> (r: GroupPoint)
    ensures
        point_model(r) == point_model(*p),
{
    point_clone(p)
}

/// The x coordinate of a point as a big integer; `None` for the zero
/// point, which has no coordinates.
pub fn point_x_coordinate(p: &GroupPoint) -> (r: Option<BigInt>)
    ensures
        (r is Some) == !is_zero_model(point_model(*p)),
        r matches Some(b) ==> int_value(b) == x_coord_of(point_model(*p)),
{
    point_x(p)
}

/// The compressed encoding of a point, read as a big-endian integer.
pub fn point_encoding(p: &GroupPoint) -> (r: BigInt)
    ensures
        int_value(r) == point_model(*p),
{
    point_to_bigint(p)
}

/// The two-party aggregation coefficient of the first key:
/// `H(1, x_1, x_1, x_2)` over the pair's x coordinates in order.
pub open spec fn agg_two_coef_mine(x1: int, x2: int) -> int {
    hash_ints(seq![1int, x1, x1, x2])
}

/// The two-party aggregation coefficient of the second key:
/// `H(1, x_2, x_1, x_2)` over the pair's x coordinates in order.
pub open spec fn agg_two_coef_other(x1: int, x2: int) -> int {
    hash_ints(seq![1int, x2, x1, x2])
}

/// The two-party aggregated public key:
/// `a_1 * P_1 + a_2 * P_2`, each coefficient reduced to a scalar.
pub open spec fn agg_two_apk(p1: int, p2: int) -> int {
    add_model(
        mul_model(p1, agg_two_coef_mine(x_coord_of(p1), x_coord_of(p2)) % group_order()),
        mul_model(p2, agg_two_coef_other(x_coord_of(p1), x_coord_of(p2)) % group_order()),
    )
}

/// The x coordinates of a sequence of point models.
pub open spec fn x_models(ps: Seq<int>) -> Seq<int> {
    ps.map_values(|p: int| x_coord_of(p))
}

/// The models of a sequence of points.
pub open spec fn point_models(ps: Seq<GroupPoint>) -> Seq<int> {
    ps.map_values(|p: GroupPoint| point_model(p))
}

/// The aggregation coefficient of participant `i` among N participants:
/// `H(1, x_i, x_1, ..., x_n)` over the full ordered list of x coordinates.
pub open spec fn agg_coef(xs: Seq<int>, i: int) -> int {
    hash_ints(seq![1int, xs[i]] + xs)
}

/// Participant `i`'s coefficient-weighted public key.
pub open spec fn weighted(ps: Seq<int>, i: int) -> int {
    mul_model(ps[i], agg_coef(x_models(ps), i) % group_order())
}

/// The sum of the first `k` weighted keys, added left to right.
pub open spec fn apk_prefix(ps: Seq<int>, k: int) -> int
    decreases k,
{
    if k <= 1 {
        weighted(ps, 0)
    } else {
        add_model(apk_prefix(ps, k - 1), weighted(ps, k - 1))
    }
}

/// The N-party aggregated public key: `sum_i a_i * P_i`.
pub open spec fn agg_apk(ps: Seq<int>) -> int {
    apk_prefix(ps, ps.len() as int)
}

/// An aggregated public key together with this party's own aggregation
/// coefficient.
pub struct KeyAgg {
    pub apk: GroupPoint,
    pub hash: BigInt,
}

impl KeyAgg {
    /// Aggregate two public keys, taken in the globally agreed order
    /// `(mine, other)`; returns the aggregated key and the caller's own
    /// coefficient. Every participant must use the identical order, or the
    /// aggregated keys disagree and all signatures fail verification.
    pub fn key_aggregation(my_pk: &GroupPoint, other_pk: &GroupPoint) -> (r: KeyAgg)
        requires
            !is_zero_model(point_model(*my_pk)),
            !is_zero_model(point_model(*other_pk)),
        ensures
            int_value(r.hash) == agg_two_coef_mine(
                x_coord_of(point_model(*my_pk)),
                x_coord_of(point_model(*other_pk)),
            ),
            point_model(r.apk) == agg_two_apk(point_model(*my_pk), point_model(*other_pk)),
    {
        let x1 = point_x(my_pk).unwrap();
        let x2 = point_x(other_pk).unwrap();

        let mut v1: Vec<BigInt> = Vec::new();
        v1.push(bigint_from_u64(1));
        v1.push(bigint_clone(&x1));
        v1.push(bigint_clone(&x1));
        v1.push(bigint_clone(&x2));
        proof {
            assert(v1@.map_values(|b: BigInt| int_value(b)) =~= seq![
                1int,
                int_value(x1),
                int_value(x1),
                int_value(x2),
            ]);
        }
        let hash1 = hash_bigints(&v1);
        let hash1_fe = scalar_from_bigint(&hash1);
        let a1 = point_mul(my_pk, &hash1_fe);

        let mut v2: Vec<BigInt> = Vec::new();
        v2.push(bigint_from_u64(1));
        v2.push(bigint_clone(&x2));
        v2.push(bigint_clone(&x1));
        v2.push(bigint_clone(&x2));
        proof {
            assert(v2@.map_values(|b: BigInt| int_value(b)) =~= seq![
                1int,
                int_value(x2),
                int_value(x1),
                int_value(x2),
            ]);
        }
        let hash2 = hash_bigints(&v2);
        let hash2_fe = scalar_from_bigint(&hash2);
        let a2 = point_mul(other_pk, &hash2_fe);

        let apk = point_add(&a2, &a1);
        KeyAgg { apk, hash: hash1 }
    }

    /// Aggregate two public keys after checking that neither is the zero
    /// point; `None` when one of them is.
    pub fn key_aggregation_checked(my_pk: &GroupPoint, other_pk: &GroupPoint) -> (r: Option<
        KeyAgg,
    >)
        ensures
            (r is Some) == (!is_zero_model(point_model(*my_pk)) && !is_zero_model(
                point_model(*other_pk),
            )),
            r matches Some(agg) ==> {
                &&& int_value(agg.hash) == agg_two_coef_mine(
                    x_coord_of(point_model(*my_pk)),
                    x_coord_of(point_model(*other_pk)),
                )
                &&& point_model(agg.apk) == agg_two_apk(
                    point_model(*my_pk),
                    point_model(*other_pk),
                )
            },
    {
        if point_is_zero(my_pk) || point_is_zero(other_pk) {
            None
        } else {
            Some(Self::key_aggregation(my_pk, other_pk))
        }
    }

    /// Aggregate N public keys, taken in the globally agreed order; returns
    /// the aggregated key and the coefficient of `party_index` only. Other
    /// coefficients can be recomputed from the same public list.
    pub fn key_aggregation_n(pks: &Vec<GroupPoint>, party_index: &usize) -> (r: KeyAgg)
        requires
            pks@.len() >= 1,
            *party_index < pks@.len(),
            forall|i: int| 0 <= i < pks@.len() ==> !is_zero_model(point_model(pks@[i])),
        ensures
            int_value(r.hash) == agg_coef(x_models(point_models(pks@)), *party_index as int),
            point_model(r.apk) == agg_apk(point_models(pks@)),
    {
        let ghost ps: Seq<int> = point_models(pks@);
        let ghost xs: Seq<int> = x_models(ps);
        let n: usize = pks.len();

        let mut x_vec: Vec<BigInt> = Vec::new();
        let mut i: usize = 0;
        while i < n
            invariant
                n == pks@.len(),
                ps == point_models(pks@),
                xs == x_models(ps),
                ps.len() == n,
                xs.len() == n,
                forall|k: int| 0 <= k < ps.len() ==> !is_zero_model(ps[k]),
                i <= n,
                x_vec@.len() == i,
                forall|k: int| 0 <= k < i ==> int_value(x_vec@[k]) == xs[k],
            decreases n - i,
        {
            proof {
                assert(ps[i as int] == point_model(pks@[i as int]));
                assert(xs[i as int] == x_coord_of(ps[i as int]));
            }
            let xi = point_x(&pks[i]).unwrap();
            x_vec.push(xi);
            i += 1;
        }

        let mut coef_vec: Vec<BigInt> = Vec::new();
        let mut j: usize = 0;
        while j < n
            invariant
                n == pks@.len(),
                ps == point_models(pks@),
                xs == x_models(ps),
                ps.len() == n,
                xs.len() == n,
                x_vec@.len() == n,
                forall|k: int| 0 <= k < n ==> int_value(x_vec@[k]) == xs[k],
                j <= n,
                coef_vec@.len() == j,
                forall|k: int| 0 <= k < j ==> int_value(coef_vec@[k]) == agg_coef(xs, k),
            decreases n - j,
        {
            let mut v: Vec<BigInt> = Vec::new();
            v.push(bigint_from_u64(1));
            v.push(bigint_clone(&x_vec[j]));
            let mut t: usize = 0;
            while t < n
                invariant
                    n == pks@.len(),
                    xs == x_models(ps),
                    ps.len() == n,
                    xs.len() == n,
                    x_vec@.len() == n,
                    forall|k: int| 0 <= k < n ==> int_value(x_vec@[k]) == xs[k],
                    j < n,
                    t <= n,
                    v@.len() == 2 + t,
                    int_value(v@[0]) == 1,
                    int_value(v@[1]) == xs[j as int],
                    forall|k: int| 0 <= k < t ==> int_value(v@[2 + k]) == xs[k],
                decreases n - t,
            {
                v.push(bigint_clone(&x_vec[t]));
                t += 1;
            }
            proof {
                assert(xs.len() == n);
                assert(v@.map_values(|b: BigInt| int_value(b)) =~= seq![1int, xs[j as int]] + xs);
            }
            coef_vec.push(hash_bigints(&v));
            j += 1;
        }

        proof {
            assert(ps[0] == point_model(pks@[0]));
        }
        let c0 = scalar_from_bigint(&coef_vec[0]);
        let mut apk = point_mul(&pks[0], &c0);
        let mut m: usize = 1;
        while m < n
            invariant
                n == pks@.len(),
                ps == point_models(pks@),
                xs == x_models(ps),
                ps.len() == n,
                xs.len() == n,
                coef_vec@.len() == n,
                forall|k: int| 0 <= k < n ==> int_value(coef_vec@[k]) == agg_coef(xs, k),
                1 <= m <= n,
                point_model(apk) == apk_prefix(ps, m as int),
            decreases n - m,
        {
            proof {
                assert(ps[m as int] == point_model(pks@[m as int]));
            }
            let cm = scalar_from_bigint(&coef_vec[m]);
            let am = point_mul(&pks[m], &cm);
            apk = point_add(&apk, &am);
            m += 1;
        }

        let hash = bigint_clone(&coef_vec[*party_index]);
        KeyAgg { apk, hash }
    }

    /// Aggregate N public keys after checking the inputs: `None` when the
    /// list is empty, the party index is out of range, or some key is the
    /// zero point.
    pub fn key_aggregation_n_checked(pks: &Vec<GroupPoint>, party_index: &usize) -> (r: Option<
        KeyAgg,
    >)
        ensures
            (r is Some) == (pks@.len() >= 1 && *party_index < pks@.len() && (forall|i: int|
                0 <= i < pks@.len() ==> !is_zero_model(point_model(pks@[i])))),
            r matches Some(agg) ==> {
                &&& int_value(agg.hash) == agg_coef(
                    x_models(point_models(pks@)),
                    *party_index as int,
                )
                &&& point_model(agg.apk) == agg_apk(point_models(pks@))
            },
    {
        if pks.len() == 0 || *party_index >= pks.len() {
            return None;
        }
        let mut i: usize = 0;
        while i < pks.len()
            invariant
                i <= pks@.len(),
                forall|k: int| 0 <= k < i ==> !is_zero_model(point_model(pks@[k])),
            decreases pks@.len() - i,
        {
            if point_is_zero(&pks[i]) {
                return None;
            }
            i += 1;
        }
        Some(Self::key_aggregation_n(pks, party_index))
    }
}

/// Whether a commitment check passes: the recomputed commitment to `x`
/// under `blind` equals the received commitment.
pub open spec fn commit_check_model(x: int, blind: int, comm: int) -> bool {
    commit_model(x, blind) == comm
}

/// The Fiat-Shamir challenge: with the aggregate-signature domain bit set,
/// `H(0, r_x, apk, m)`; without it, `H(r_x, apk, m)`. `r_x` is the
/// aggregate nonce's x coordinate, `apk` the aggregated key's compressed
/// encoding, `m` the message read as an integer.
pub open spec fn challenge_model(r_x: int, apk: int, msg: Seq<u8>, musig_bit: bool) -> int {
    if musig_bit {
        hash_ints(seq![0int, r_x, apk, bytes_int(msg)])
    } else {
        hash_ints(seq![r_x, apk, bytes_int(msg)])
    }
}

/// A partial signature: `nonce + c * (sk * coef mod q) mod q  (mod q)`,
/// with `q` the group order.
pub open spec fn partial_sig_model(nonce: int, c: int, sk: int, coef: int) -> int {
    (nonce + (c * ((sk * coef) % group_order())) % group_order()) % group_order()
}

/// The combined signature scalar: `(s1 + s2) mod q`.
pub open spec fn combined_sig_model(s1: int, s2: int) -> int {
    (s1 + s2) % group_order()
}

/// A per-session ephemeral nonce: a fresh nonce key pair together with a
/// hiding commitment to its public point and the blinding factor used.
pub struct EphemeralKey {
    pub keypair: KeyPair,
    pub commitment: BigInt,
    pub blind_factor: BigInt,
}

impl EphemeralKey {
    /// Sample a fresh nonce key pair and commit to the x coordinate of its
    /// public point; the commitment is the only value sent in round 1.
    pub fn create() -> (r: EphemeralKey)
        ensures
            r.keypair.wf(),
            1 <= r.keypair.secret() < group_order(),
            r.keypair.point() == gen_mul(r.keypair.secret()),
            !is_zero_model(r.keypair.point()),
            int_value(r.commitment) == commit_model(
                x_coord_of(r.keypair.point()),
                int_value(r.blind_factor),
            ),
    {
        let keypair = KeyPair::create();
        let x = point_x(&keypair.public_key).unwrap();
        let (commitment, blind_factor) = commit_fresh(&x);
        EphemeralKey { keypair, commitment, blind_factor }
    }

    /// Derive the nonce deterministically as `H(private_key, message)`, for
    /// stateless signing where randomness cannot be trusted; then run the
    /// same commit step as [`Self::create`]: commit to the x coordinate of
    /// the nonce point. The same `(key, message)` pair yields the same
    /// nonce, which is acceptable only because the nonce is message-bound.
    /// The derived nonce must not be zero modulo the group order, or the
    /// nonce point has no x coordinate to commit to;
    /// [`Self::create_from_private_key_checked`] tests that first.
    pub fn create_from_private_key(x1: &KeyPair, message: &[u8]) -> (r: EphemeralKey)
        requires
            hash_ints(seq![x1.secret(), bytes_int(message@)]) % group_order() != 0,
        ensures
            r.keypair.wf(),
            r.keypair.secret() == hash_ints(seq![x1.secret(), bytes_int(message@)])
                % group_order(),
            r.keypair.point() == gen_mul(r.keypair.secret()),
            !is_zero_model(r.keypair.point()),
            int_value(r.commitment) == commit_model(
                x_coord_of(r.keypair.point()),
                int_value(r.blind_factor),
            ),
    {
        let sk_b = scalar_to_bigint(&x1.private_key);
        let msg_b = bigint_from_bytes(message);
        let mut v: Vec<BigInt> = Vec::new();
        v.push(sk_b);
        v.push(msg_b);
        proof {
            assert(v@.map_values(|b: BigInt| int_value(b)) =~= seq![
                x1.secret(),
                bytes_int(message@),
            ]);
        }
        let h = hash_bigints(&v);
        let ephemeral_private_key = scalar_from_bigint(&h);
        let ephemeral_public_key = generator_mul(&ephemeral_private_key);
        proof {
            vstd::arithmetic::div_mod::lemma_mod_bound(int_value(h), group_order());
        }
        let x = point_x(&ephemeral_public_key).unwrap();
        let (commitment, blind_factor) = commit_fresh(&x);
        EphemeralKey {
            keypair: KeyPair {
                public_key: ephemeral_public_key,
                private_key: ephemeral_private_key,
            },
            commitment,
            blind_factor,
        }
    }

    /// [`Self::create_from_private_key`] behind the zero-nonce check:
    /// `None` exactly when the derived nonce is zero modulo the group
    /// order, so that no x coordinate exists to commit to.
    pub fn create_from_private_key_checked(x1: &KeyPair, message: &[u8]) -> (r: Option<
        EphemeralKey,
    >)
        ensures
            (r is Some) == (hash_ints(seq![x1.secret(), bytes_int(message@)]) % group_order()
                != 0),
            r matches Some(e) ==> {
                &&& e.keypair.wf()
                &&& e.keypair.secret() == hash_ints(seq![x1.secret(), bytes_int(message@)])
                    % group_order()
                &&& e.keypair.point() == gen_mul(e.keypair.secret())
                &&& int_value(e.commitment) == commit_model(
                    x_coord_of(e.keypair.point()),
                    int_value(e.blind_factor),
                )
            },
    {
        let sk_b = scalar_to_bigint(&x1.private_key);
        let msg_b = bigint_from_bytes(message);
        let mut v: Vec<BigInt> = Vec::new();
        v.push(sk_b);
        v.push(msg_b);
        proof {
            assert(v@.map_values(|b: BigInt| int_value(b)) =~= seq![
                x1.secret(),
                bytes_int(message@),
            ]);
        }
        let h = hash_bigints(&v);
        let nonce = scalar_from_bigint(&h);
        let nonce_point = generator_mul(&nonce);
        if point_is_zero(&nonce_point) {
            None
        } else {
            Some(Self::create_from_private_key(x1, message))
        }
    }

    /// Check a co-signer's opened commitment: recompute the commitment to
    /// the revealed nonce point's x coordinate under the revealed blinding
    /// factor and compare with the commitment received in round 1. Every
    /// signer must run this check before using the revealed point.
    pub fn test_com(r_to_test: &GroupPoint, blind_factor: &BigInt, comm: &BigInt) -> (res: bool)
        requires
            !is_zero_model(point_model(*r_to_test)),
        ensures
            res == commit_check_model(
                x_coord_of(point_model(*r_to_test)),
                int_value(*blind_factor),
                int_value(*comm),
            ),
    {
        let x = point_x(r_to_test).unwrap();
        let computed_comm = commit_with_blinding(&x, blind_factor);
        bigint_eq(&computed_comm, comm)
    }

    /// [`Self::test_com`] behind a zero-point check: `None` when the
    /// revealed point is the zero point, which no honest reveal contains.
    pub fn test_com_checked(r_to_test: &GroupPoint, blind_factor: &BigInt, comm: &BigInt) -> (res:
        Option<bool>)
        ensures
            (res is Some) == !is_zero_model(point_model(*r_to_test)),
            res matches Some(b) ==> b == commit_check_model(
                x_coord_of(point_model(*r_to_test)),
                int_value(*blind_factor),
                int_value(*comm),
            ),
    {
        if point_is_zero(r_to_test) {
            None
        } else {
            Some(Self::test_com(r_to_test, blind_factor, comm))
        }
    }

    /// Aggregate two revealed nonce points by point addition.
    pub fn add_ephemeral_pub_keys(r1: &GroupPoint, r2: &GroupPoint) -> (r: GroupPoint)
        ensures
            point_model(r) == add_model(point_model(*r1), point_model(*r2)),
            point_model(r) == add_model(point_model(*r2), point_model(*r1)),
    {
        point_add(r1, r2)
    }

    /// The Fiat-Shamir challenge `c` binding the aggregate nonce, the
    /// aggregated public key and the message; `musig_bit` selects the
    /// aggregate-signature domain prefix.
    pub fn hash_0(r_hat: &GroupPoint, apk: &GroupPoint, message: &[u8], musig_bit: &bool) -> (r:
        BigInt)
        requires
            !is_zero_model(point_model(*r_hat)),
        ensures
            int_value(r) == challenge_model(
                x_coord_of(point_model(*r_hat)),
                point_model(*apk),
                message@,
                *musig_bit,
            ),
            int_value(r) >= 0,
    {
        let rx = point_x(r_hat).unwrap();
        let apk_b = point_to_bigint(apk);
        let msg_b = bigint_from_bytes(message);
        let mut v: Vec<BigInt> = Vec::new();
        if *musig_bit {
            v.push(bigint_from_u64(0));
        }
        v.push(rx);
        v.push(apk_b);
        v.push(msg_b);
        proof {
            if *musig_bit {
                assert(v@.map_values(|b: BigInt| int_value(b)) =~= seq![
                    0int,
                    x_coord_of(point_model(*r_hat)),
                    point_model(*apk),
                    bytes_int(message@),
                ]);
            } else {
                assert(v@.map_values(|b: BigInt| int_value(b)) =~= seq![
                    x_coord_of(point_model(*r_hat)),
                    point_model(*apk),
                    bytes_int(message@),
                ]);
            }
        }
        hash_bigints(&v)
    }

    /// [`Self::hash_0`] behind a zero-point check on the aggregate nonce:
    /// `None` when it is the zero point.
    pub fn hash_0_checked(
        r_hat: &GroupPoint,
        apk: &GroupPoint,
        message: &[u8],
        musig_bit: &bool,
    ) -> (r: Option<BigInt>)
        ensures
            (r is Some) == !is_zero_model(point_model(*r_hat)),
            r matches Some(c) ==> int_value(c) == challenge_model(
                x_coord_of(point_model(*r_hat)),
                point_model(*apk),
                message@,
                *musig_bit,
            ),
    {
        if point_is_zero(r_hat) {
            None
        } else {
            Some(Self::hash_0(r_hat, apk, message, musig_bit))
        }
    }

    /// This signer's partial signature:
    /// `s_i = nonce + c * private_key * coefficient (mod q)`.
    pub fn sign(r: &EphemeralKey, c: &BigInt, x: &KeyPair, a: &BigInt) -> (s: BigInt)
        ensures
            int_value(s) == partial_sig_model(
                r.keypair.secret(),
                int_value(*c),
                x.secret(),
                int_value(*a),
            ),
            0 <= int_value(s) < group_order(),
    {
        let curve_order_b = curve_order();
        let nonce_b = scalar_to_bigint(&r.keypair.private_key);
        let sk_b = scalar_to_bigint(&x.private_key);
        let xa = bigint_mod_mul(&sk_b, a, &curve_order_b);
        let cxa = bigint_mod_mul(c, &xa, &curve_order_b);
        let s = bigint_mod_add(&nonce_b, &cxa, &curve_order_b);
        proof {
            vstd::arithmetic::div_mod::lemma_mod_bound(
                r.keypair.secret() + (int_value(*c) * ((x.secret() * int_value(*a))
                    % group_order())) % group_order(),
                group_order(),
            );
        }
        s
    }

    /// Combine two partial signatures into the final signature
    /// `(R.x, s1 + s2 mod q)`; the partials may be summed in any order.
    pub fn add_signature_parts(s1: &BigInt, s2: &BigInt, r_tag: &GroupPoint) -> (r: (
        BigInt,
        BigInt,
    ))
        requires
            !is_zero_model(point_model(*r_tag)),
        ensures
            int_value(r.0) == x_coord_of(point_model(*r_tag)),
            int_value(r.1) == combined_sig_model(int_value(*s1), int_value(*s2)),
    {
        let curve_order_b = curve_order();
        let rx = point_x(r_tag).unwrap();
        let s = bigint_mod_add(s1, s2, &curve_order_b);
        (rx, s)
    }

    /// [`Self::add_signature_parts`] behind a zero-point check on the
    /// aggregate nonce: `None` when it is the zero point.
    pub fn add_signature_parts_checked(s1: &BigInt, s2: &BigInt, r_tag: &GroupPoint) -> (r:
        Option<(BigInt, BigInt)>)
        ensures
            (r is Some) == !is_zero_model(point_model(*r_tag)),
            r matches Some(sig) ==> int_value(sig.0) == x_coord_of(point_model(*r_tag))
                && int_value(sig.1) == combined_sig_model(int_value(*s1), int_value(*s2)),
    {
        if point_is_zero(r_tag) {
            None
        } else {
            Some(Self::add_signature_parts(s1, s2, r_tag))
        }
    }
}

/// The signature was rejected: the recomputed nonce point does not match
/// the signature's x coordinate.
#[derive(Debug)]
pub struct InvalidSignature;

/// The point the verifier recomputes: `s*G - c*apk`, written as
/// `s*G + ((q - c) mod q) * apk` over the scalar field.
pub open spec fn verify_recomputed_point(sig: int, c: int, apk: int) -> int {
    add_model(
        gen_mul(sig % group_order()),
        mul_model(apk, (group_order() - c) % group_order()),
    )
}

/// When verification accepts: the recomputed point `s*G - c*apk` is not
/// the zero point and its x coordinate equals the signature's `r_x`, with
/// `c` the Fiat-Shamir challenge recomputed from `(r_x, apk, msg)`.
pub open spec fn verify_ok_model(
    sig: int,
    r_x: int,
    apk: int,
    msg: Seq<u8>,
    musig_bit: bool,
) -> bool {
    let c = challenge_model(r_x, apk, msg, musig_bit);
    let sp = verify_recomputed_point(sig, c, apk);
    &&& !is_zero_model(sp)
    &&& x_coord_of(sp) == r_x
}

/// Check an aggregate signature `(r_x, signature)` against the aggregated
/// public key and message: recompute the challenge `c`, compute
/// `s*G - c*apk`, and accept iff that point's x coordinate equals `r_x`.
pub fn verify(
    signature: &BigInt,
    r_x: &BigInt,
    apk: &GroupPoint,
    message: &[u8],
    musig_bit: &bool,
) -> (r: Result<(), InvalidSignature>)
    ensures
        (r is Ok) == verify_ok_model(
            int_value(*signature),
            int_value(*r_x),
            point_model(*apk),
            message@,
            *musig_bit,
        ),
{
    let curve_order_b = curve_order();
    let apk_b = point_to_bigint(apk);
    let msg_b = bigint_from_bytes(message);
    let mut v: Vec<BigInt> = Vec::new();
    if *musig_bit {
        v.push(bigint_from_u64(0));
    }
    v.push(bigint_clone(r_x));
    v.push(apk_b);
    v.push(msg_b);
    proof {
        if *musig_bit {
            assert(v@.map_values(|b: BigInt| int_value(b)) =~= seq![
                0int,
                int_value(*r_x),
                point_model(*apk),
                bytes_int(message@),
            ]);
        } else {
            assert(v@.map_values(|b: BigInt| int_value(b)) =~= seq![
                int_value(*r_x),
                point_model(*apk),
                bytes_int(message@),
            ]);
        }
    }
    let c = hash_bigints(&v);
    let minus_c = bigint_mod_sub(&curve_order_b, &c, &curve_order_b);
    proof {
        vstd::arithmetic::div_mod::lemma_mod_bound(
            group_order() - int_value(c),
            group_order(),
        );
        assert(int_value(minus_c) % group_order() == int_value(minus_c)) by (nonlinear_arith)
            requires
                0 <= int_value(minus_c) < group_order(),
        ;
    }
    let minus_c_fe = scalar_from_bigint(&minus_c);
    let signature_fe = scalar_from_bigint(signature);
    let s_g = generator_mul(&signature_fe);
    let c_y = point_mul(apk, &minus_c_fe);
    let s_point = point_add(&s_g, &c_y);
    match point_x(&s_point) {
        Option::None => Err(InvalidSignature),
        Option::Some(x) => if bigint_eq(&x, r_x) {
            Ok(())
        } else {
            Err(InvalidSignature)
        },
    }
}

/// Coefficient determinism: two-party aggregation and N-party aggregation
/// with N = 2 and the same participant order yield the same aggregated
/// public key and the same coefficients for both parties.
pub proof fn lemma_aggregation_two_matches_n(p1: int, p2: int)
    ensures
        agg_two_apk(p1, p2) == agg_apk(seq![p1, p2]),
        agg_two_coef_mine(x_coord_of(p1), x_coord_of(p2)) == agg_coef(
            x_models(seq![p1, p2]),
            0,
        ),
        agg_two_coef_other(x_coord_of(p1), x_coord_of(p2)) == agg_coef(
            x_models(seq![p1, p2]),
            1,
        ),
{
    let ps = seq![p1, p2];
    let xs = x_models(ps);
    assert(xs =~= seq![x_coord_of(p1), x_coord_of(p2)]);
    assert(seq![1int, xs[0]] + xs =~= seq![
        1int,
        x_coord_of(p1),
        x_coord_of(p1),
        x_coord_of(p2),
    ]);
    assert(seq![1int, xs[1]] + xs =~= seq![
        1int,
        x_coord_of(p2),
        x_coord_of(p1),
        x_coord_of(p2),
    ]);
    assert(apk_prefix(ps, 1) == weighted(ps, 0));
    assert(apk_prefix(ps, 2) == add_model(weighted(ps, 0), weighted(ps, 1)));
}

/// The partial-signature formula with its inner reductions folded away:
/// `s_i` equals `nonce + c * sk * a` reduced once modulo the group order.
pub proof fn lemma_partial_sig_formula(nonce: int, c: int, sk: int, a: int)
    ensures
        partial_sig_model(nonce, c, sk, a) == (nonce + c * sk * a) % group_order(),
{
    let q = group_order();
    vstd::arithmetic::div_mod::lemma_mul_mod_noop_right(c, sk * a, q);
    assert(c * (sk * a) == c * sk * a) by (nonlinear_arith);
    vstd::arithmetic::div_mod::lemma_add_mod_noop_right(nonce, c * sk * a, q);
}

/// Partial-sum commutativity: combining the partial signatures in either
/// order yields the same combined signature scalar.
pub proof fn lemma_partial_sum_commutes(s1: int, s2: int)
    ensures
        combined_sig_model(s1, s2) == combined_sig_model(s2, s1),
{
}

/// Commitment round trip: the commitment to a value under a blinding
/// factor passes the commitment check for that same value and blinding
/// factor.
pub proof fn lemma_commitment_roundtrip(x: int, blind: int)
    ensures
        commit_check_model(x, blind, commit_model(x, blind)),
{
}

/// Domain separation at the hash input: the two modes never present the
/// same input sequence to the challenge hash — the aggregate mode
/// prepends the domain prefix, making its input list longer. That the
/// hash itself then differs rests on collision resistance, which is not
/// stated here.
pub proof fn lemma_mode_inputs_differ(r_x: int, apk: int, msg: Seq<u8>)
    ensures
        seq![0int, r_x, apk, bytes_int(msg)] != seq![r_x, apk, bytes_int(msg)],
{
    assert(seq![0int, r_x, apk, bytes_int(msg)].len() == 4);
    assert(seq![r_x, apk, bytes_int(msg)].len() == 3);
}

/// Order sensitivity at the hash input: for distinct x coordinates, the
/// two participant orders never present the same input sequence to the
/// first party's coefficient hash. That the coefficients and aggregated
/// keys then differ rests on collision resistance, which is not stated
/// here.
pub proof fn lemma_order_inputs_differ(x1: int, x2: int)
    requires
        x1 != x2,
    ensures
        seq![1int, x1, x1, x2] != seq![1int, x2, x2, x1],
{
    let a = seq![1int, x1, x1, x2];
    let b = seq![1int, x2, x2, x1];
    assert(a[1] == x1);
    assert(b[1] == x2);
}

} // verus!
