//! The trusted boundary to the cryptographic libraries.
//!
//! Every item here either declares an outside type or wraps one call into
//! curv, kzen-paillier or zk-paillier. The verifier believes the stated
//! contracts; everything else in this crate is proved against them.

use vstd::arithmetic::power::pow;
use vstd::prelude::*;

use curv::arithmetic::{Modulo, One, Samplable, Zero};
use curv::cryptographic_primitives::secret_sharing::feldman_vss::VerifiableSS;
use curv::cryptographic_primitives::secret_sharing::Polynomial;
use curv::elliptic::curves::secp256_k1::{Secp256k1Point, Secp256k1Scalar};
use curv::elliptic::curves::{ECPoint, ECScalar, Scalar, Secp256k1};
use curv::BigInt;
use kzen_paillier::{
    Add, Decrypt, DecryptionKey, EncryptionKey, KeyGeneration, Mul, Paillier, RawCiphertext,
    RawPlaintext,
};
use sha2::Sha256;
use zk_paillier::zkproofs::{CompositeDLogProof, DLogStatement, NiCorrectKeyProof};

use crate::add_party::VssScheme;

verus! {

// ---------------------------------------------------------------------------
// Outside types.
// ---------------------------------------------------------------------------

/// curv's arbitrary-precision integer; opaque to the verifier.
#[verifier::external_type_specification]
#[verifier::external_body]
pub struct ExBigInt(BigInt);

/// A secp256k1 group element; opaque to the verifier. The library treats a
/// point value as the group element it carries, which is also what the
/// crate's equality compares.
#[verifier::external_type_specification]
#[verifier::external_body]
pub struct ExSecp256k1Point(Secp256k1Point);

/// A secp256k1 field scalar; opaque to the verifier.
#[verifier::external_type_specification]
#[verifier::external_body]
pub struct ExSecp256k1Scalar(Secp256k1Scalar);

/// Paillier public key: the plain record of the modulus `n` and `n²`.
#[verifier::external_type_specification]
pub struct ExEncryptionKey(EncryptionKey);

/// Paillier private key: the plain record of the two primes.
#[verifier::external_type_specification]
pub struct ExDecryptionKey(DecryptionKey);

/// The composite discrete-log statement `(N, g, ni)`.
#[verifier::external_type_specification]
pub struct ExDLogStatement(DLogStatement);

/// A composite discrete-log proof: two integers.
#[verifier::external_type_specification]
pub struct ExCompositeDLogProof(CompositeDLogProof);

/// The non-interactive Paillier key correctness proof.
#[verifier::external_type_specification]
pub struct ExNiCorrectKeyProof(NiCorrectKeyProof);

// ---------------------------------------------------------------------------
// Names for the outside values and for the results of the deterministic
// outside functions. Each name is applied by the contract of the trusted
// item it belongs to; the contracts of the verified functions are then
// stated over these names.
// ---------------------------------------------------------------------------

/// The integer a `BigInt` carries.
pub uninterp spec fn bigint_value(b: BigInt) -> int;

/// The well-formedness of a Paillier prime pair that `Paillier::keypair`
/// establishes: the (abstract) property of proper Paillier primes under
/// which decryption and the key-correctness prover run without fault —
/// their internal modular inverses exist. It is stated abstractly: only
/// the keypair generator can establish it.
pub uninterp spec fn paillier_primes_wf(dk: DecryptionKey) -> bool;

/// What `Paillier::decrypt` returns: a function of the two primes and the
/// ciphertext value alone.
pub uninterp spec fn paillier_dec(p: int, q: int, c: int) -> int;

/// What `NiCorrectKeyProof::proof` (with the default salt) returns: a
/// function of the decryption key alone.
pub uninterp spec fn correct_key_proof_of(dk: DecryptionKey) -> NiCorrectKeyProof;

/// The scalar with the given canonical integer value.
pub uninterp spec fn scalar_of(n: int) -> Secp256k1Scalar;

/// The canonical integer value of a scalar, in `[0, group order)`.
pub uninterp spec fn scalar_value(s: Secp256k1Scalar) -> int;

/// What `ECPoint::generator_mul` returns: the scalar multiple of the
/// group generator.
pub uninterp spec fn gen_mul(s: Secp256k1Scalar) -> Secp256k1Point;

/// What `ECPoint::scalar_mul` returns.
pub uninterp spec fn pt_mul(p: Secp256k1Point, s: Secp256k1Scalar) -> Secp256k1Point;

/// What `ECPoint::add_point` returns.
pub uninterp spec fn pt_add(a: Secp256k1Point, b: Secp256k1Point) -> Secp256k1Point;

/// What `Polynomial::lagrange_basis` evaluated at zero returns: the `j`-th
/// Lagrange basis coefficient over the abscissas `xs`.
pub uninterp spec fn lagrange_at_zero(j: int, xs: Seq<u16>) -> Secp256k1Scalar;

/// The order of the secp256k1 scalar field.
pub open spec fn secp256k1_group_order() -> int {
    0xFFFFFFFFFFFFFFFFFFFFFFFFFFFFFFFEBAAEDCE6AF48A03BBFD25E8CD0364141int
}

/// A Paillier keypair fit for use: well-formed primes and the matching
/// moduli.
pub open spec fn paillier_pair_wf(ek: EncryptionKey, dk: DecryptionKey) -> bool {
    &&& paillier_primes_wf(dk)
    &&& bigint_value(dk.p) >= 2
    &&& bigint_value(dk.q) >= 2
    &&& bigint_value(ek.n) == bigint_value(dk.p) * bigint_value(dk.q)
    &&& bigint_value(ek.nn) == bigint_value(ek.n) * bigint_value(ek.n)
    &&& bigint_value(ek.nn) > 0
}

// ---------------------------------------------------------------------------
// Clones of outside values. Each derived `Clone` below copies plain data
// field by field, so the clone equals the original.
// ---------------------------------------------------------------------------

/// Relies on `BigInt`'s derived `Clone`: a value copy of the integer.
pub assume_specification[ <BigInt as Clone>::clone ](b: &BigInt) -> (r: BigInt)
    ensures
        r == *b,
;

/// Relies on `Secp256k1Scalar`'s `Clone`: a value copy of the scalar.
pub assume_specification[ <Secp256k1Scalar as Clone>::clone ](s: &Secp256k1Scalar) -> (r:
    Secp256k1Scalar)
    ensures
        r == *s,
;

/// Relies on `Secp256k1Point`'s `Clone`: a value copy of the point.
pub assume_specification[ <Secp256k1Point as Clone>::clone ](p: &Secp256k1Point) -> (r:
    Secp256k1Point)
    ensures
        r == *p,
;

/// Relies on `EncryptionKey`'s derived `Clone`.
pub assume_specification[ <EncryptionKey as Clone>::clone ](k: &EncryptionKey) -> (r:
    EncryptionKey)
    ensures
        r == *k,
;

/// Relies on `DecryptionKey`'s derived `Clone`.
pub assume_specification[ <DecryptionKey as Clone>::clone ](k: &DecryptionKey) -> (r:
    DecryptionKey)
    ensures
        r == *k,
;

/// Relies on `DLogStatement`'s derived `Clone`.
pub assume_specification[ <DLogStatement as Clone>::clone ](s: &DLogStatement) -> (r:
    DLogStatement)
    ensures
        r == *s,
;

/// Relies on `CompositeDLogProof`'s derived `Clone`.
pub assume_specification[ <CompositeDLogProof as Clone>::clone ](p: &CompositeDLogProof) -> (r:
    CompositeDLogProof)
    ensures
        r == *p,
;

/// Relies on `NiCorrectKeyProof`'s derived `Clone`.
pub assume_specification[ <NiCorrectKeyProof as Clone>::clone ](p: &NiCorrectKeyProof) -> (r:
    NiCorrectKeyProof)
    ensures
        r == *p,
;

// ---------------------------------------------------------------------------
// Paillier cryptosystem.
// ---------------------------------------------------------------------------

/// Relies on `Paillier::keypair`: a fresh pair of 1024-bit primes, odd
/// and with the top bit set (so at least 2), and the derived public
/// moduli `n = p·q`, `nn = n²`. The prime-pair well-formedness is stated
/// through its abstract name. Nothing more can be promised of a random
/// result.
#[verifier::external_body]
pub(crate) fn paillier_keypair() -> (r: (EncryptionKey, DecryptionKey))
    ensures
        paillier_primes_wf(r.1),
        paillier_pair_wf(r.0, r.1),
{
    Paillier::keypair().keys()
}

/// Relies on `Paillier::decrypt`: the plaintext of `c` under `dk` — a
/// function of the primes and the ciphertext value alone, canonical in
/// `[0, p·q)`. The well-formed-primes precondition keeps the internal
/// modular inverses of the CRT path from failing.
#[verifier::external_body]
pub(crate) fn paillier_decrypt(dk: &DecryptionKey, c: &BigInt) -> (r: BigInt)
    requires
        paillier_primes_wf(*dk),
        bigint_value(dk.p) >= 2,
        bigint_value(dk.q) >= 2,
    ensures
        bigint_value(r) == paillier_dec(bigint_value(dk.p), bigint_value(dk.q), bigint_value(*c)),
        0 <= bigint_value(r) < bigint_value(dk.p) * bigint_value(dk.q),
{
    Paillier::decrypt(dk, RawCiphertext::from(c)).0.into_owned()
}

/// Relies on `Paillier::add`: the product of the two ciphertexts modulo
/// `nn` (under which the plaintexts add). The preconditions rule out the
/// zero modulus and negative operands, on which the reduction would abort
/// or differ in sign convention.
#[verifier::external_body]
pub(crate) fn paillier_add(ek: &EncryptionKey, c1: &BigInt, c2: &BigInt) -> (r: BigInt)
    requires
        bigint_value(ek.nn) > 0,
        bigint_value(*c1) >= 0,
        bigint_value(*c2) >= 0,
    ensures
        bigint_value(r) == (bigint_value(*c1) * bigint_value(*c2)) % bigint_value(ek.nn),
        0 <= bigint_value(r) < bigint_value(ek.nn),
{
    Paillier::add(ek, RawCiphertext::from(c1), RawCiphertext::from(c2)).0.into_owned()
}

/// Relies on `Paillier::mul`: the ciphertext raised to the plaintext
/// factor modulo `nn` (under which the plaintext is scaled). The
/// preconditions rule out the zero modulus, a negative exponent (the
/// modular power asserts on it) and a negative base.
#[verifier::external_body]
pub(crate) fn paillier_mul(ek: &EncryptionKey, c: &BigInt, m: &BigInt) -> (r: BigInt)
    requires
        bigint_value(ek.nn) > 0,
        bigint_value(*c) >= 0,
        bigint_value(*m) >= 0,
    ensures
        bigint_value(r) == pow(bigint_value(*c), bigint_value(*m) as nat) % bigint_value(ek.nn),
        0 <= bigint_value(r) < bigint_value(ek.nn),
{
    Paillier::mul(ek, RawCiphertext::from(c), RawPlaintext::from(m)).0.into_owned()
}

/// Relies on `NiCorrectKeyProof::proof` with the default salt: a proof
/// that `dk`'s keypair was generated correctly — deterministic in `dk`,
/// so its result carries a name. The well-formed-primes precondition
/// keeps the prover's internal root extraction from failing.
#[verifier::external_body]
pub(crate) fn prove_correct_key(dk: &DecryptionKey) -> (r: NiCorrectKeyProof)
    requires
        paillier_primes_wf(*dk),
        bigint_value(dk.p) >= 2,
        bigint_value(dk.q) >= 2,
    ensures
        r == correct_key_proof_of(*dk),
{
    NiCorrectKeyProof::proof(dk, None)
}

// ---------------------------------------------------------------------------
// Big integer arithmetic.
// ---------------------------------------------------------------------------

/// Relies on `BigInt::one`.
#[verifier::external_body]
pub(crate) fn bigint_one() -> (r: BigInt)
    ensures
        bigint_value(r) == 1,
{
    BigInt::one()
}

/// Relies on `BigInt::zero`.
#[verifier::external_body]
pub(crate) fn bigint_zero() -> (r: BigInt)
    ensures
        bigint_value(r) == 0,
{
    BigInt::zero()
}

/// Relies on the subtraction operator of `BigInt`: the exact difference.
#[verifier::external_body]
pub(crate) fn bigint_sub(a: &BigInt, b: &BigInt) -> (r: BigInt)
    ensures
        bigint_value(r) == bigint_value(*a) - bigint_value(*b),
{
    a - b
}

/// Relies on the multiplication operator of `BigInt`: the exact product.
#[verifier::external_body]
pub(crate) fn bigint_mul(a: &BigInt, b: &BigInt) -> (r: BigInt)
    ensures
        bigint_value(r) == bigint_value(*a) * bigint_value(*b),
{
    a * b
}

/// Relies on the ordering of `BigInt`, which compares the integer values.
#[verifier::external_body]
pub(crate) fn bigint_ge_zero(a: &BigInt) -> (r: bool)
    ensures
        r == (bigint_value(*a) >= 0),
{
    let zero = BigInt::zero();
    *a >= zero
}

/// Relies on `BigInt::sample_below`: a uniform draw from `[0, bound)`.
/// The sampler asserts a positive bound. Only the range holds of every
/// outcome.
#[verifier::external_body]
pub(crate) fn bigint_sample_below(bound: &BigInt) -> (r: BigInt)
    requires
        bigint_value(*bound) > 0,
    ensures
        0 <= bigint_value(r) < bigint_value(*bound),
{
    BigInt::sample_below(bound)
}

/// Relies on `BigInt::mod_inv`: the canonical inverse of `a` modulo `m`
/// where it exists, `None` where it does not. A non-positive modulus is
/// excluded, on which the library would divide by zero.
#[verifier::external_body]
pub(crate) fn bigint_mod_inv(a: &BigInt, m: &BigInt) -> (r: Option<BigInt>)
    requires
        bigint_value(*m) >= 1,
    ensures
        r matches Some(v) ==> 0 <= bigint_value(v) < bigint_value(*m) && (bigint_value(*a)
            * bigint_value(v) - 1) % bigint_value(*m) == 0,
{
    BigInt::mod_inv(a, m)
}

/// Relies on `BigInt::mod_pow`: `base` raised to `exp`, canonical modulo
/// `m`. The preconditions exclude a negative exponent (asserted on), a
/// non-positive modulus, and a negative base (a sign-convention
/// difference).
#[verifier::external_body]
pub(crate) fn bigint_mod_pow(base: &BigInt, exp: &BigInt, m: &BigInt) -> (r: BigInt)
    requires
        bigint_value(*base) >= 0,
        bigint_value(*exp) >= 0,
        bigint_value(*m) >= 1,
    ensures
        bigint_value(r) == pow(bigint_value(*base), bigint_value(*exp) as nat) % bigint_value(*m),
        0 <= bigint_value(r) < bigint_value(*m),
{
    BigInt::mod_pow(base, exp, m)
}

// ---------------------------------------------------------------------------
// secp256k1 group arithmetic.
// ---------------------------------------------------------------------------

/// Relies on `ECScalar::from_bigint`: the scalar `n` reduced modulo the
/// group order. Total in `n`; the value clauses are stated for the
/// non-negative arguments the callers pass (the reduction of a negative
/// argument follows the Euclidean convention).
#[verifier::external_body]
pub(crate) fn scalar_from_bigint(n: &BigInt) -> (r: Secp256k1Scalar)
    ensures
        bigint_value(*n) >= 0 ==> r == scalar_of(bigint_value(*n) % secp256k1_group_order()),
        bigint_value(*n) >= 0 ==> scalar_value(r) == bigint_value(*n) % secp256k1_group_order(),
{
    ECScalar::from_bigint(n)
}

/// Relies on `ECScalar::to_bigint`: the canonical integer of the scalar,
/// in `[0, group order)`.
#[verifier::external_body]
pub(crate) fn scalar_to_bigint(s: &Secp256k1Scalar) -> (r: BigInt)
    ensures
        bigint_value(r) == scalar_value(*s),
        0 <= bigint_value(r) < secp256k1_group_order(),
{
    s.to_bigint()
}

/// Relies on `ECPoint::generator_mul`: the scalar multiple of the group
/// generator — a function of the scalar alone.
#[verifier::external_body]
pub(crate) fn generator_mul(s: &Secp256k1Scalar) -> (r: Secp256k1Point)
    ensures
        r == gen_mul(*s),
{
    Secp256k1Point::generator_mul(s)
}

/// Relies on `ECPoint::scalar_mul`: the scalar multiple of a point — a
/// function of its arguments alone.
#[verifier::external_body]
pub(crate) fn point_mul(p: &Secp256k1Point, s: &Secp256k1Scalar) -> (r: Secp256k1Point)
    ensures
        r == pt_mul(*p, *s),
{
    p.scalar_mul(s)
}

/// Relies on `ECPoint::add_point`: the group sum of two points — a
/// function of its arguments alone.
#[verifier::external_body]
pub(crate) fn point_add(a: &Secp256k1Point, b: &Secp256k1Point) -> (r: Secp256k1Point)
    ensures
        r == pt_add(*a, *b),
{
    a.add_point(b)
}

/// Relies on `Secp256k1Point`'s equality, which compares the group element
/// the two values carry — the value this library treats a point as.
#[verifier::external_body]
pub(crate) fn point_eq(a: &Secp256k1Point, b: &Secp256k1Point) -> (r: bool)
    ensures
        r == (*a == *b),
{
    a == b
}

/// Relies on `Polynomial::lagrange_basis`: the `j`-th Lagrange basis
/// polynomial over the abscissas `xs`, evaluated at zero. The preconditions
/// keep the abscissas pairwise distinct scalars and `j` in bounds, on which
/// the call cannot panic.
#[verifier::external_body]
pub(crate) fn lagrange_basis_at_zero(j: usize, xs: &Vec<u16>) -> (r: Secp256k1Scalar)
    requires
        j < xs@.len(),
        xs@.len() <= 0xffff,
        forall|k: int, l: int| 0 <= k < l < xs@.len() ==> xs@[k] != xs@[l],
    ensures
        r == lagrange_at_zero(j as int, xs@),
{
    let points: Vec<Scalar<Secp256k1>> = xs.iter().map(|x| Scalar::from(*x)).collect();
    Polynomial::<Secp256k1>::lagrange_basis(&Scalar::zero(), j as u16, &points).into_raw()
}

// ---------------------------------------------------------------------------
// Feldman verifiable secret sharing.
// ---------------------------------------------------------------------------

/// Relies on `VerifiableSS::share`: a fresh Feldman sharing of `secret`
/// with threshold `t` over `n` shares. Only the public commitment
/// polynomial is kept — one commitment per coefficient of the degree-`t`
/// polynomial — and the shares themselves are dropped. The polynomial's
/// constant term is the secret itself, so the first commitment is the
/// generator multiple of the secret; the other coefficients draw fresh
/// randomness, so nothing is stated of their commitments.
#[verifier::external_body]
pub(crate) fn vss_share(t: u16, n: u16, secret: &Secp256k1Scalar) -> (r: VssScheme)
    requires
        t < n,
    ensures
        r.threshold == t,
        r.share_count == n,
        r.commitments@.len() == t + 1,
        r.commitments@[0] == gen_mul(*secret),
{
    let s = Scalar::<Secp256k1>::from_raw(secret.clone());
    let (vss, _shares) = VerifiableSS::<Secp256k1, Sha256>::share(t, n, &s);
    let commitments = vss.commitments.into_iter().map(|c| c.into_raw()).collect();
    VssScheme { threshold: t, share_count: n, commitments }
}

// ---------------------------------------------------------------------------
// Composite discrete-log proofs.
// ---------------------------------------------------------------------------

/// Relies on `CompositeDLogProof::prove`: a proof of knowledge of
/// `secret` for the given statement. It draws fresh randomness, so
/// nothing is stated of the result; a non-positive statement modulus,
/// on which the modular power would divide by zero, is excluded.
#[verifier::external_body]
pub(crate) fn composite_dlog_prove(
    statement: &DLogStatement,
    secret: &BigInt,
) -> CompositeDLogProof
    requires
        bigint_value(statement.N) >= 1,
{
    CompositeDLogProof::prove(statement, secret)
}

} // verus!
