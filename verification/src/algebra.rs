//! Trusted bridge to the algebra collaborator: the secp256k1 group, its
//! scalar field, SHA-256 hashing and the hash commitment scheme of the
//! `curv` crate.
//!
//! Every function here is `external_body`: its contract is assumed, not
//! proved, and states only what the `curv` sources show. Values of the
//! outside types are modelled by uninterpreted abstraction functions:
//! a `BigInt` by its integer value, a `Point` by its compressed encoding
//! read as an integer, and a `Scalar` by its value in `[0, group_order)`.

use vstd::prelude::*;

use curv::arithmetic::traits::Converter;
use curv::arithmetic::traits::Modulo;
use curv::cryptographic_primitives::commitments::hash_commitment::HashCommitment;
use curv::cryptographic_primitives::commitments::traits::Commitment;
use curv::cryptographic_primitives::hashing::DigestExt;
use curv::elliptic::curves::Point;
use curv::elliptic::curves::Scalar;
use curv::elliptic::curves::Secp256k1;
use curv::BigInt;
use sha2::Digest;
use sha2::Sha256;

verus! {

#[verifier::external_type_specification]
#[verifier::external_body]
pub struct ExBigInt(BigInt);

/// A point of the secp256k1 group. Opaque to the verifier (Verus refuses a
/// declaration of `curv`'s generic `Point<E>`, whose bound is the outside
/// trait `Curve`); its one field holds the `curv` point, and every contract
/// speaks of it through `point_model`.
#[verifier::external_body]
pub struct GroupPoint {
    p: Point<Secp256k1>,
}

/// A scalar of the secp256k1 scalar field, held opaquely like
/// [`GroupPoint`] and modelled by `scalar_value`.
#[verifier::external_body]
pub struct GroupScalar {
    s: Scalar<Secp256k1>,
}

/// The integer value held by a `BigInt`.
pub uninterp spec fn int_value(b: BigInt) -> int;

/// The model of a curve point: its 33-byte compressed encoding read as a
/// big-endian integer, which determines the point.
pub uninterp spec fn point_model(p: GroupPoint) -> int;

/// The value of a scalar, an integer in `[0, group_order())`.
pub uninterp spec fn scalar_value(s: GroupScalar) -> int;

/// What point addition returns, over point models.
pub uninterp spec fn add_model(p: int, q: int) -> int;

/// What multiplying a point by a scalar returns, over the point model and
/// the scalar value.
pub uninterp spec fn mul_model(p: int, k: int) -> int;

/// What multiplying the group generator by a scalar returns.
pub uninterp spec fn gen_mul(k: int) -> int;

/// What `Point::x_coord` returns for a non-zero point with this model.
pub uninterp spec fn x_coord_of(p: int) -> int;

/// What `Point::is_zero` returns for a point with this model.
pub uninterp spec fn is_zero_model(p: int) -> bool;

/// What hashing a sequence of big integers with SHA-256 returns: the
/// digest of the concatenated minimal big-endian encodings, as an integer.
pub uninterp spec fn hash_ints(inputs: Seq<int>) -> int;

/// What the SHA-256 hash commitment to `value` under blinding factor
/// `blind` returns.
pub uninterp spec fn commit_model(value: int, blind: int) -> int;

/// The order of the secp256k1 group (the scalar field's prime modulus).
pub open spec fn group_order() -> int {
    0xFFFFFFFFFFFFFFFFFFFFFFFFFFFFFFFEBAAEDCE6AF48A03BBFD25E8CD0364141int
}

/// A byte string read as a big-endian unsigned integer.
pub open spec fn bytes_int(s: Seq<u8>) -> int
    decreases s.len(),
{
    if s.len() == 0 {
        0
    } else {
        256 * bytes_int(s.drop_last()) + s.last()
    }
}

/// Relies on `BigInt: From<u64>`: the big integer with that value.
#[verifier::external_body]
pub(crate) fn bigint_from_u64(n: u64) -> (r: BigInt)
    ensures
        int_value(r) == n,
{
    BigInt::from(n)
}

/// Relies on `BigInt::from_bytes` (gmp `mpz_import`): the bytes read as a
/// big-endian unsigned integer.
#[verifier::external_body]
pub(crate) fn bigint_from_bytes(bytes: &[u8]) -> (r: BigInt)
    ensures
        int_value(r) == bytes_int(bytes@),
        int_value(r) >= 0,
{
    BigInt::from_bytes(bytes)
}

/// Relies on `Clone for BigInt`: the copy holds the same value.
#[verifier::external_body]
pub(crate) fn bigint_clone(b: &BigInt) -> (r: BigInt)
    ensures
        int_value(r) == int_value(*b),
{
    b.clone()
}

/// Relies on `PartialEq for BigInt`: equality of the integer values.
#[verifier::external_body]
pub(crate) fn bigint_eq(a: &BigInt, b: &BigInt) -> (r: bool)
    ensures
        r == (int_value(*a) == int_value(*b)),
{
    a == b
}

/// Relies on `BigInt::mod_add` (floor modulus): `(a + b) mod m`, in `[0, m)`.
#[verifier::external_body]
pub(crate) fn bigint_mod_add(a: &BigInt, b: &BigInt, m: &BigInt) -> (r: BigInt)
    requires
        int_value(*m) > 0,
    ensures
        int_value(r) == (int_value(*a) + int_value(*b)) % int_value(*m),
{
    BigInt::mod_add(a, b, m)
}

/// Relies on `BigInt::mod_mul` (floor modulus): `(a * b) mod m`, in `[0, m)`.
#[verifier::external_body]
pub(crate) fn bigint_mod_mul(a: &BigInt, b: &BigInt, m: &BigInt) -> (r: BigInt)
    requires
        int_value(*m) > 0,
    ensures
        int_value(r) == (int_value(*a) * int_value(*b)) % int_value(*m),
{
    BigInt::mod_mul(a, b, m)
}

/// Relies on `BigInt::mod_sub` (floor modulus): `(a - b) mod m`, in `[0, m)`.
#[verifier::external_body]
pub(crate) fn bigint_mod_sub(a: &BigInt, b: &BigInt, m: &BigInt) -> (r: BigInt)
    requires
        int_value(*m) > 0,
    ensures
        int_value(r) == (int_value(*a) - int_value(*b)) % int_value(*m),
{
    BigInt::mod_sub(a, b, m)
}

/// Relies on `Scalar::<Secp256k1>::group_order`: the secp256k1 curve order.
#[verifier::external_body]
pub(crate) fn curve_order() -> (r: BigInt)
    ensures
        int_value(r) == group_order(),
{
    Scalar::<Secp256k1>::group_order().clone()
}

/// Relies on `Scalar::random`: a random non-zero scalar; nothing more is
/// promised of which value comes back.
#[verifier::external_body]
pub(crate) fn scalar_random() -> (r: GroupScalar)
    ensures
        1 <= scalar_value(r) < group_order(),
{
    GroupScalar { s: Scalar::random() }
}

/// Relies on `Scalar::from_bigint`: the scalar `n mod group_order`.
#[verifier::external_body]
pub(crate) fn scalar_from_bigint(n: &BigInt) -> (r: GroupScalar)
    ensures
        scalar_value(r) == int_value(*n) % group_order(),
{
    GroupScalar { s: Scalar::from_bigint(n) }
}

/// Relies on `Scalar::to_bigint`: the scalar's value, in `[0, group_order)`.
#[verifier::external_body]
pub(crate) fn scalar_to_bigint(s: &GroupScalar) -> (r: BigInt)
    ensures
        int_value(r) == scalar_value(*s),
        0 <= int_value(r) < group_order(),
{
    s.s.to_bigint()
}

/// Relies on `Point::generator` and scalar multiplication: the generator
/// times the scalar. The result is the zero point exactly for the zero
/// scalar: the generator has group order, so a scalar in
/// `[1, group_order)` gives a non-zero point, while the zero scalar maps
/// to the zero point.
#[verifier::external_body]
pub(crate) fn generator_mul(s: &GroupScalar) -> (r: GroupPoint)
    ensures
        point_model(r) == gen_mul(scalar_value(*s)),
        is_zero_model(point_model(r)) == (scalar_value(*s) == 0),
{
    GroupPoint { p: Point::generator() * &s.s }
}

/// Relies on point-scalar multiplication of `curv`.
#[verifier::external_body]
pub(crate) fn point_mul(p: &GroupPoint, s: &GroupScalar) -> (r: GroupPoint)
    ensures
        point_model(r) == mul_model(point_model(*p), scalar_value(*s)),
{
    GroupPoint { p: &p.p * &s.s }
}

/// Relies on point addition of `curv`; the elliptic-curve group is
/// abelian, so the result is the sum taken in either order.
#[verifier::external_body]
pub(crate) fn point_add(a: &GroupPoint, b: &GroupPoint) -> (r: GroupPoint)
    ensures
        point_model(r) == add_model(point_model(*a), point_model(*b)),
        point_model(r) == add_model(point_model(*b), point_model(*a)),
{
    GroupPoint { p: &a.p + &b.p }
}

/// Relies on `Point::x_coord`: `Some` of the x coordinate for a non-zero
/// point, `None` for the zero point.
#[verifier::external_body]
pub(crate) fn point_x(p: &GroupPoint) -> (r: Option<BigInt>)
    ensures
        (r is Some) == !is_zero_model(point_model(*p)),
        r matches Some(b) ==> int_value(b) == x_coord_of(point_model(*p)) && int_value(b) >= 0,
{
    p.p.x_coord()
}

/// Relies on `Point::is_zero`.
#[verifier::external_body]
pub(crate) fn point_is_zero(p: &GroupPoint) -> (r: bool)
    ensures
        r == is_zero_model(point_model(*p)),
{
    p.p.is_zero()
}

/// Relies on `Point::to_bytes(true)` and `BigInt::from_bytes`: the
/// compressed encoding of the point, read as a big-endian integer.
#[verifier::external_body]
pub(crate) fn point_to_bigint(p: &GroupPoint) -> (r: BigInt)
    ensures
        int_value(r) == point_model(*p),
        int_value(r) >= 0,
{
    BigInt::from_bytes(&p.p.to_bytes(true))
}

/// Relies on `Clone for Point`: the copy is the same point.
#[verifier::external_body]
pub(crate) fn point_clone(p: &GroupPoint) -> (r: GroupPoint)
    ensures
        point_model(r) == point_model(*p),
{
    GroupPoint { p: p.p.clone() }
}

/// Relies on SHA-256 (`sha2::Sha256` through `curv`'s `DigestExt`): feeds
/// the minimal big-endian encoding of each input in order and returns the
/// digest as an integer; the digest depends on the input values alone.
#[verifier::external_body]
pub(crate) fn hash_bigints(inputs: &Vec<BigInt>) -> (r: BigInt)
    ensures
        int_value(r) == hash_ints(inputs@.map_values(|b: BigInt| int_value(b))),
        int_value(r) >= 0,
{
    let mut h = Sha256::new();
    for b in inputs {
        h.input_bigint(b);
    }
    h.result_bigint()
}

/// Relies on `HashCommitment::<Sha256>::create_commitment_with_user_defined_randomness`:
/// SHA-256 over the committed value's bytes followed by the blinding
/// factor's bytes, a function of the two values alone.
#[verifier::external_body]
pub(crate) fn commit_with_blinding(value: &BigInt, blind: &BigInt) -> (r: BigInt)
    ensures
        int_value(r) == commit_model(int_value(*value), int_value(*blind)),
{
    HashCommitment::<Sha256>::create_commitment_with_user_defined_randomness(value, blind)
}

/// Relies on `HashCommitment::<Sha256>::create_commitment`: draws a random
/// 256-bit blinding factor and returns the pair (commitment, blinding
/// factor), the commitment being the deterministic commitment to `value`
/// under the returned blinding factor.
#[verifier::external_body]
pub(crate) fn commit_fresh(value: &BigInt) -> (r: (BigInt, BigInt))
    ensures
        int_value(r.0) == commit_model(int_value(*value), int_value(r.1)),
        int_value(r.1) >= 0,
{
    HashCommitment::<Sha256>::create_commitment(value)
}

} // verus!
