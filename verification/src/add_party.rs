//! The new party's side of the join protocol: generation of its broadcast
//! identity record (`distribute`) and the collection engine that combines
//! the existing parties' refresh messages into a usable key share
//! (`collect`).

use vstd::prelude::*;

use curv::elliptic::curves::secp256_k1::{Secp256k1Point, Secp256k1Scalar};
use curv::BigInt;
use kzen_paillier::{DecryptionKey, EncryptionKey};
use zk_paillier::zkproofs::{CompositeDLogProof, DLogStatement, NiCorrectKeyProof};

use vstd::arithmetic::power::pow;

use crate::errors::{FsDkrError, FsDkrResult};
use crate::primitives::{
    bigint_mod_inv, bigint_mod_pow, bigint_mul, bigint_one, bigint_sample_below, bigint_sub,
    bigint_value, bigint_zero, composite_dlog_prove, correct_key_proof_of, gen_mul, generator_mul,
    paillier_dec, paillier_decrypt, paillier_keypair, paillier_pair_wf, point_add, point_eq,
    point_mul, prove_correct_key, pt_add, pt_mul, scalar_from_bigint, scalar_of, scalar_value,
    secp256k1_group_order, vss_share,
};
use crate::refresh_message::{
    batch_ciphertexts_nonneg, batch_count_ok, batch_indices_distinct, batch_indices_in_range,
    batch_lagrange, batch_sizes_ok, batch_valid, combined_ciphertext, public_keys_agree,
    RefreshMessage,
};

verus! {

/// How many draws of the secret exponent are attempted before the setup
/// generator gives up; non-invertibility is overwhelmingly unlikely to
/// recur this often.
pub const MAX_SETUP_SAMPLING_ATTEMPTS: usize = 128;

/// The new party's Paillier keypair; the private half never leaves the
/// caller.
#[derive(Clone, Debug)]
pub struct Keys {
    pub ek: EncryptionKey,
    pub dk: DecryptionKey,
}

/// This party's secret scalar and its public counterpart `y = x_i · G`.
#[derive(Clone, Debug)]
pub struct SharedKeys {
    pub x_i: Secp256k1Scalar,
    pub y: Secp256k1Point,
}

/// The public commitment polynomial of a fresh Feldman re-sharing:
/// threshold, share count, and one curve commitment per coefficient.
#[derive(Clone, Debug)]
pub struct VssScheme {
    pub threshold: u16,
    pub share_count: u16,
    pub commitments: Vec<Secp256k1Point>,
}

/// One slot of the indexed public material: either material learned from a
/// live source, or an explicitly tagged neutral placeholder for a slot no
/// source covered. The tag is kept distinguishable here even though the
/// assembled key record flattens it to a dense vector.
#[derive(Clone, Debug)]
pub enum PartyMaterial {
    Known { ek: EncryptionKey, statement: DLogStatement },
    Placeholder { ek: EncryptionKey, statement: DLogStatement },
}

impl PartyMaterial {
    /// The Paillier key this slot carries, real or placeholder.
    pub open spec fn ek(self) -> EncryptionKey {
        match self {
            PartyMaterial::Known { ek, .. } => ek,
            PartyMaterial::Placeholder { ek, .. } => ek,
        }
    }

    /// The discrete-log statement this slot carries, real or placeholder.
    pub open spec fn statement(self) -> DLogStatement {
        match self {
            PartyMaterial::Known { statement, .. } => statement,
            PartyMaterial::Placeholder { statement, .. } => statement,
        }
    }
}

/// The new party's durable secret-share record, the product of a
/// successful `collect`.
#[derive(Clone, Debug)]
pub struct LocalKey {
    pub paillier_dk: DecryptionKey,
    pub pk_vec: Vec<Secp256k1Point>,
    pub keys_linear: SharedKeys,
    pub paillier_key_vec: Vec<EncryptionKey>,
    pub y_sum_s: Secp256k1Point,
    pub h1_h2_n_tilde_vec: Vec<DLogStatement>,
    pub vss_scheme: VssScheme,
    pub i: u16,
    pub t: u16,
    pub n: u16,
}

/// The broadcast payload of a joining party: its encryption public key, a
/// correctness proof for the matching private key, and the auxiliary
/// zero-knowledge setup material. `party_index` stays unset until the
/// coordination layer assigns this party a slot.
#[derive(Clone, Debug)]
pub struct JoinMessage {
    pub ek: EncryptionKey,
    pub dk_correctness_proof: NiCorrectKeyProof,
    pub party_index: Option<u16>,
    pub dlog_statement_base_h1: DLogStatement,
    pub dlog_statement_base_h2: DLogStatement,
    pub composite_dlog_proof_base_h1: CompositeDLogProof,
    pub composite_dlog_proof_base_h2: CompositeDLogProof,
}

/// Every join message of the batch has been assigned a party index.
pub open spec fn join_indices_assigned(jms: Seq<JoinMessage>) -> bool {
    forall|k: int| 0 <= k < jms.len() ==> (#[trigger] jms[k]).party_index is Some
}

/// The public material slot `p` takes from the join messages: the last
/// message assigned to `p` wins, mirroring overlay order.
pub open spec fn find_join_entry(jms: Seq<JoinMessage>, p: u16) -> Option<
    (EncryptionKey, DLogStatement),
>
    decreases jms.len(),
{
    if jms.len() == 0 {
        None
    } else if jms.last().party_index == Some(p) {
        Some((jms.last().ek, jms.last().dlog_statement_base_h1))
    } else {
        find_join_entry(jms.drop_last(), p)
    }
}

/// The public material slot `p` takes from the refresh messages: the last
/// message from `p` wins.
pub open spec fn find_refresh_entry(msgs: Seq<RefreshMessage>, p: u16) -> Option<
    (EncryptionKey, DLogStatement),
>
    decreases msgs.len(),
{
    if msgs.len() == 0 {
        None
    } else if msgs.last().party_index == p {
        Some((msgs.last().ek, msgs.last().dlog_statement))
    } else {
        find_refresh_entry(msgs.drop_last(), p)
    }
}

/// The total overlay of the three public-material sources for slot `p`:
/// other join messages take precedence over this party's own material,
/// which takes precedence over the refresh messages; `None` where no
/// source covers the slot.
pub open spec fn party_entry(
    me: JoinMessage,
    my_ek: EncryptionKey,
    msgs: Seq<RefreshMessage>,
    jms: Seq<JoinMessage>,
    p: u16,
) -> Option<(EncryptionKey, DLogStatement)> {
    if find_join_entry(jms, p) is Some {
        find_join_entry(jms, p)
    } else if me.party_index == Some(p) {
        Some((my_ek, me.dlog_statement_base_h1))
    } else {
        find_refresh_entry(msgs, p)
    }
}

/// Slot `q` (counting from zero) of the indexed material is correct: it
/// carries the overlay entry for party `q + 1` where one exists, and an
/// explicitly tagged placeholder where none does.
pub open spec fn material_slot_ok(
    me: JoinMessage,
    my_ek: EncryptionKey,
    msgs: Seq<RefreshMessage>,
    jms: Seq<JoinMessage>,
    v: Seq<PartyMaterial>,
    q: int,
) -> bool {
    match party_entry(me, my_ek, msgs, jms, (q + 1) as u16) {
        Some(entry) => v[q] == (PartyMaterial::Known { ek: entry.0, statement: entry.1 }),
        None => ({
            &&& v[q] is Placeholder
            &&& bigint_value(v[q].ek().n) == 0
            &&& bigint_value(v[q].ek().nn) == 0
        }),
    }
}

/// Some source covers party `q + 1` (counting `q` from zero).
pub open spec fn slot_covered(
    me: JoinMessage,
    my_ek: EncryptionKey,
    msgs: Seq<RefreshMessage>,
    jms: Seq<JoinMessage>,
    q: int,
) -> bool {
    party_entry(me, my_ek, msgs, jms, (q + 1) as u16) is Some
}

/// The arithmetic relation of a fresh auxiliary setup with totient
/// `phi`: the raw exponents `phi - xh` and `phi - xh_inv` (the returned
/// witnesses are masked by subtraction from `phi`) lie in `[0, phi)`,
/// `h2` is `h1` raised to the raw exponent modulo `n`, and the two raw
/// exponents are inverse to each other modulo `phi`.
pub open spec fn aux_setup_rel(phi: int, n: int, h1: int, h2: int, xh: int, xh_inv: int) -> bool {
    &&& 0 < phi
    &&& 0 <= phi - xh < phi
    &&& 0 <= phi - xh_inv < phi
    &&& h2 == pow(h1, (phi - xh) as nat) % n
    &&& ((phi - xh) * (phi - xh_inv) - 1) % phi == 0
}

/// `ni` is `g` raised to some non-negative exponent `e`, modulo `n`.
pub open spec fn power_rel(g: int, ni: int, n: int, e: int) -> bool {
    e >= 0 && ni == pow(g, e as nat) % n
}

/// The Lagrange-weighted sum of the first `j + 1` senders' committed
/// points for `slot` (counting from zero): each sender's commitment
/// scaled by its Lagrange coefficient, summed in the group.
pub open spec fn weighted_point_sum(msgs: Seq<RefreshMessage>, slot: int, j: int) -> Secp256k1Point
    decreases j,
{
    if j <= 0 {
        pt_mul(msgs[0].points_committed_vec@[slot], batch_lagrange(msgs)[0])
    } else {
        pt_add(
            weighted_point_sum(msgs, slot, j - 1),
            pt_mul(msgs[j].points_committed_vec@[slot], batch_lagrange(msgs)[j]),
        )
    }
}

/// The dense key vectors agree with the overlay at slot `q` (counting
/// from zero): wherever a source covers party `q + 1`, the vectors carry
/// that source's Paillier key and statement.
pub open spec fn indexed_keys_ok(
    me: JoinMessage,
    my_ek: EncryptionKey,
    msgs: Seq<RefreshMessage>,
    jms: Seq<JoinMessage>,
    eks: Seq<EncryptionKey>,
    stmts: Seq<DLogStatement>,
    q: int,
) -> bool {
    match party_entry(me, my_ek, msgs, jms, (q + 1) as u16) {
        Some(entry) => eks[q] == entry.0 && stmts[q] == entry.1,
        None => bigint_value(eks[q].n) == 0 && bigint_value(eks[q].nn) == 0,
    }
}

/// Fresh auxiliary setup: a composite modulus, a uniform base `h1`, the
/// derived base `h2 = h1^x`, and the two masked exponents `φ(N) - x` and
/// `φ(N) - x⁻¹`. Retries the exponent draw while it is not invertible
/// modulo `φ(N)`, up to the retry cap.
fn generate_h1_h2_n_tilde() -> (r: FsDkrResult<(BigInt, BigInt, BigInt, BigInt, BigInt)>)
    ensures
        r matches Err(e) ==> e == FsDkrError::SetupSamplingError,
        r matches Ok(v) ==> ({
            &&& bigint_value(v.0) >= 4
            &&& 0 <= bigint_value(v.1) < bigint_value(v.0)
            &&& exists|phi: int|
                #[trigger] aux_setup_rel(
                    phi,
                    bigint_value(v.0),
                    bigint_value(v.1),
                    bigint_value(v.2),
                    bigint_value(v.3),
                    bigint_value(v.4),
                )
        }),
{
    let (ek_tilde, dk_tilde) = paillier_keypair();
    let one = bigint_one();
    let p_minus_one = bigint_sub(&dk_tilde.p, &one);
    let q_minus_one = bigint_sub(&dk_tilde.q, &one);
    let phi = bigint_mul(&p_minus_one, &q_minus_one);
    proof {
        assert(bigint_value(phi) >= 1 && bigint_value(ek_tilde.n) >= 4) by (nonlinear_arith)
            requires
                bigint_value(dk_tilde.p) >= 2,
                bigint_value(dk_tilde.q) >= 2,
                bigint_value(phi) == (bigint_value(dk_tilde.p) - 1) * (bigint_value(dk_tilde.q)
                    - 1),
                bigint_value(ek_tilde.n) == bigint_value(dk_tilde.p) * bigint_value(dk_tilde.q),
        ;
    }
    let h1 = bigint_sample_below(&ek_tilde.n);
    let mut drawn: Option<(BigInt, BigInt)> = None;
    let mut attempts: usize = 0;
    while attempts < MAX_SETUP_SAMPLING_ATTEMPTS && drawn.is_none()
        invariant
            attempts <= MAX_SETUP_SAMPLING_ATTEMPTS,
            bigint_value(phi) >= 1,
            drawn matches Some(pair) ==> ({
                &&& 0 <= bigint_value(pair.0) < bigint_value(phi)
                &&& 0 <= bigint_value(pair.1) < bigint_value(phi)
                &&& (bigint_value(pair.0) * bigint_value(pair.1) - 1) % bigint_value(phi) == 0
            }),
        decreases MAX_SETUP_SAMPLING_ATTEMPTS - attempts,
    {
        let candidate = bigint_sample_below(&phi);
        match bigint_mod_inv(&candidate, &phi) {
            Some(inverse) => {
                drawn = Some((candidate, inverse));
            },
            None => {},
        }
        attempts += 1;
    }
    match drawn {
        None => Err(FsDkrError::SetupSamplingError),
        Some((xhi, xhi_inv)) => {
            let h2 = bigint_mod_pow(&h1, &xhi, &ek_tilde.n);
            let xhi_masked = bigint_sub(&phi, &xhi);
            let xhi_inv_masked = bigint_sub(&phi, &xhi_inv);
            let out = (ek_tilde.n, h1, h2, xhi_masked, xhi_inv_masked);
            proof {
                assert(aux_setup_rel(
                    bigint_value(phi),
                    bigint_value(out.0),
                    bigint_value(out.1),
                    bigint_value(out.2),
                    bigint_value(out.3),
                    bigint_value(out.4),
                ));
                assert(exists|ph: int|
                    #[trigger] aux_setup_rel(
                        ph,
                        bigint_value(out.0),
                        bigint_value(out.1),
                        bigint_value(out.2),
                        bigint_value(out.3),
                        bigint_value(out.4),
                    ));
            }
            Ok(out)
        },
    }
}

/// The two discrete-log statements of a fresh auxiliary setup — the second
/// swaps the roles of the bases — each with its composite discrete-log
/// proof.
fn generate_dlog_statement_proofs() -> (r: FsDkrResult<
    (DLogStatement, DLogStatement, CompositeDLogProof, CompositeDLogProof),
>)
    ensures
        r matches Ok(q) ==> ({
            &&& q.1.N == q.0.N && q.1.g == q.0.ni && q.1.ni == q.0.g
            &&& bigint_value(q.0.N) >= 4
            &&& 0 <= bigint_value(q.0.g) < bigint_value(q.0.N)
            &&& exists|e: int|
                #[trigger] power_rel(
                    bigint_value(q.0.g),
                    bigint_value(q.0.ni),
                    bigint_value(q.0.N),
                    e,
                )
        }),
        r matches Err(e) ==> e == FsDkrError::SetupSamplingError,
{
    let (n_tilde, h1, h2, xhi, xhi_inv) = match generate_h1_h2_n_tilde() {
        Ok(v) => v,
        Err(e) => {
            return Err(e);
        },
    };
    let ghost phi0 = choose|phi: int|
        #[trigger] aux_setup_rel(
            phi,
            bigint_value(n_tilde),
            bigint_value(h1),
            bigint_value(h2),
            bigint_value(xhi),
            bigint_value(xhi_inv),
        );
    proof {
        assert(power_rel(
            bigint_value(h1),
            bigint_value(h2),
            bigint_value(n_tilde),
            phi0 - bigint_value(xhi),
        ));
    }

    let dlog_statement_base_h1 = DLogStatement { N: n_tilde.clone(), g: h1.clone(), ni: h2.clone() };

    let dlog_statement_base_h2 = DLogStatement { N: n_tilde, g: h2, ni: h1 };

    let composite_dlog_proof_base_h1 = composite_dlog_prove(&dlog_statement_base_h1, &xhi);
    let composite_dlog_proof_base_h2 = composite_dlog_prove(&dlog_statement_base_h2, &xhi_inv);

    proof {
        assert(power_rel(
            bigint_value(dlog_statement_base_h1.g),
            bigint_value(dlog_statement_base_h1.ni),
            bigint_value(dlog_statement_base_h1.N),
            phi0 - bigint_value(xhi),
        ));
        assert(exists|e: int|
            #[trigger] power_rel(
                bigint_value(dlog_statement_base_h1.g),
                bigint_value(dlog_statement_base_h1.ni),
                bigint_value(dlog_statement_base_h1.N),
                e,
            ));
    }
    Ok(
        (
            dlog_statement_base_h1,
            dlog_statement_base_h2,
            composite_dlog_proof_base_h1,
            composite_dlog_proof_base_h2,
        ),
    )
}

/// The neutral placeholder for a slot whose Paillier key is unknown: a
/// zero-valued key, structurally dense but carrying no key material.
fn placeholder_encryption_key() -> (r: EncryptionKey)
    ensures
        bigint_value(r.n) == 0,
        bigint_value(r.nn) == 0,
{
    EncryptionKey { n: bigint_zero(), nn: bigint_zero() }
}

/// The join-message material slot `p` takes, scanning from the last
/// message backwards so that the last assignment wins.
fn find_join_material(join_messages: &[JoinMessage], p: u16) -> (r: Option<
    (EncryptionKey, DLogStatement),
>)
    ensures
        r == find_join_entry(join_messages@, p),
{
    let mut k: usize = join_messages.len();
    proof {
        assert(join_messages@.take(k as int) =~= join_messages@);
    }
    while k > 0
        invariant
            k <= join_messages@.len(),
            find_join_entry(join_messages@, p) == find_join_entry(
                join_messages@.take(k as int),
                p,
            ),
        decreases k,
    {
        let jm = &join_messages[k - 1];
        proof {
            assert(join_messages@.take(k as int).last() == join_messages@[k - 1]);
            assert(join_messages@.take(k as int).drop_last() =~= join_messages@.take(k - 1));
        }
        if let Some(q) = jm.party_index {
            if q == p {
                return Some((jm.ek.clone(), jm.dlog_statement_base_h1.clone()));
            }
        }
        k -= 1;
    }
    proof {
        assert(join_messages@.take(0) =~= Seq::<JoinMessage>::empty());
    }
    None
}

/// The refresh-message material slot `p` takes, scanning from the last
/// message backwards so that the last sender wins.
fn find_refresh_material(refresh_messages: &[RefreshMessage], p: u16) -> (r: Option<
    (EncryptionKey, DLogStatement),
>)
    ensures
        r == find_refresh_entry(refresh_messages@, p),
{
    let mut k: usize = refresh_messages.len();
    proof {
        assert(refresh_messages@.take(k as int) =~= refresh_messages@);
    }
    while k > 0
        invariant
            k <= refresh_messages@.len(),
            find_refresh_entry(refresh_messages@, p) == find_refresh_entry(
                refresh_messages@.take(k as int),
                p,
            ),
        decreases k,
    {
        let msg = &refresh_messages[k - 1];
        proof {
            assert(refresh_messages@.take(k as int).last() == refresh_messages@[k - 1]);
            assert(refresh_messages@.take(k as int).drop_last() =~= refresh_messages@.take(k - 1));
        }
        if msg.party_index == p {
            return Some((msg.ek.clone(), msg.dlog_statement.clone()));
        }
        k -= 1;
    }
    proof {
        assert(refresh_messages@.take(0) =~= Seq::<RefreshMessage>::empty());
    }
    None
}

/// Builds the dense indexed public material for every slot `1..=n` by
/// overlaying the three sources, tagging every slot no source covers as an
/// explicit placeholder with a freshly generated, unlinked setup
/// statement.
pub fn index_public_material(
    me: &JoinMessage,
    my_ek: &EncryptionKey,
    refresh_messages: &[RefreshMessage],
    join_messages: &[JoinMessage],
    n: u16,
) -> (r: FsDkrResult<Vec<PartyMaterial>>)
    ensures
        r matches Ok(v) ==> {
            &&& v@.len() == n
            &&& forall|q: int|
                0 <= q < n ==> material_slot_ok(
                    *me,
                    *my_ek,
                    refresh_messages@,
                    join_messages@,
                    v@,
                    q,
                )
        },
        (forall|q: int|
            0 <= q < n ==> slot_covered(*me, *my_ek, refresh_messages@, join_messages@, q))
            ==> r is Ok,
        r matches Err(e) ==> e == FsDkrError::SetupSamplingError,
{
    let mut v: Vec<PartyMaterial> = Vec::new();
    let mut idx: usize = 0;
    while idx < n as usize
        invariant
            idx <= n,
            v@.len() == idx,
            forall|q: int|
                0 <= q < idx ==> material_slot_ok(
                    *me,
                    *my_ek,
                    refresh_messages@,
                    join_messages@,
                    v@,
                    q,
                ),
        decreases n - idx,
    {
        let p: u16 = (idx as u16) + 1;
        let from_joins = find_join_material(join_messages, p);
        let entry = match from_joins {
            Some(e) => Some(e),
            None => {
                let mut own: Option<(EncryptionKey, DLogStatement)> = None;
                if let Some(mi) = me.party_index {
                    if mi == p {
                        own = Some((my_ek.clone(), me.dlog_statement_base_h1.clone()));
                    }
                }
                match own {
                    Some(e) => Some(e),
                    None => find_refresh_material(refresh_messages, p),
                }
            },
        };
        proof {
            assert((idx + 1) as u16 == p);
            assert(entry == party_entry(*me, *my_ek, refresh_messages@, join_messages@, p));
        }
        let ghost v_before = v@;
        match entry {
            Some((ek, statement)) => {
                v.push(PartyMaterial::Known { ek, statement });
                assert(material_slot_ok(
                    *me,
                    *my_ek,
                    refresh_messages@,
                    join_messages@,
                    v@,
                    idx as int,
                ));
            },
            None => {
                proof {
                    assert(!slot_covered(
                        *me,
                        *my_ek,
                        refresh_messages@,
                        join_messages@,
                        idx as int,
                    ));
                }
                let fresh = match generate_dlog_statement_proofs() {
                    Ok(q) => q,
                    Err(e) => {
                        return Err(e);
                    },
                };
                v.push(
                    PartyMaterial::Placeholder {
                        ek: placeholder_encryption_key(),
                        statement: fresh.0,
                    },
                );
                assert(material_slot_ok(
                    *me,
                    *my_ek,
                    refresh_messages@,
                    join_messages@,
                    v@,
                    idx as int,
                ));
            },
        }
        proof {
            assert forall|q: int|
                0 <= q < idx implies material_slot_ok(
                *me,
                *my_ek,
                refresh_messages@,
                join_messages@,
                v@,
                q,
            ) by {
                assert(material_slot_ok(
                    *me,
                    *my_ek,
                    refresh_messages@,
                    join_messages@,
                    v_before,
                    q,
                ));
                assert(v@[q] == v_before[q]);
            }
        }
        idx += 1;
    }
    Ok(v)
}

impl JoinMessage {
    /// Generates this party's broadcast identity record and its fresh
    /// Paillier keypair. The join message carries the public half and the
    /// correctness proof; the party index stays unset until the group
    /// assigns a slot.
    pub fn distribute() -> (r: FsDkrResult<(JoinMessage, Keys)>)
        ensures
            r matches Ok(pair) ==> {
                &&& pair.0.party_index is None
                &&& pair.0.ek == pair.1.ek
                &&& paillier_pair_wf(pair.1.ek, pair.1.dk)
                &&& pair.0.dk_correctness_proof == correct_key_proof_of(pair.1.dk)
                &&& pair.0.dlog_statement_base_h1.N == pair.0.dlog_statement_base_h2.N
                &&& pair.0.dlog_statement_base_h1.g == pair.0.dlog_statement_base_h2.ni
                &&& pair.0.dlog_statement_base_h1.ni == pair.0.dlog_statement_base_h2.g
            },
    {
        let (ek, dk) = paillier_keypair();
        let (
            dlog_statement_base_h1,
            dlog_statement_base_h2,
            composite_dlog_proof_base_h1,
            composite_dlog_proof_base_h2,
        ) = match generate_dlog_statement_proofs() {
            Ok(q) => q,
            Err(e) => {
                return Err(e);
            },
        };

        let dk_correctness_proof = prove_correct_key(&dk);
        let join_message = JoinMessage {
            ek: ek.clone(),
            dk_correctness_proof,
            party_index: None,
            dlog_statement_base_h1,
            dlog_statement_base_h2,
            composite_dlog_proof_base_h1,
            composite_dlog_proof_base_h2,
        };

        Ok((join_message, Keys { ek, dk }))
    }

    /// Combines a validated batch of refresh messages, this party's
    /// Paillier keypair and the other joining parties' join messages into
    /// this party's durable key-share record: it checks every declared
    /// precondition in order, homomorphically combines the encrypted
    /// contributions addressed to this slot with their Lagrange weights,
    /// decrypts the new secret share, rebuilds the public-share vector
    /// from the committed points, indexes every party's public material
    /// (padding uncovered slots with tagged placeholders), and re-shares
    /// the new secret with a fresh Feldman scheme.
    pub fn collect(
        &self,
        refresh_messages: &[RefreshMessage],
        paillier_key: Keys,
        join_messages: &[JoinMessage],
        t: u16,
        n: u16,
    ) -> (r: FsDkrResult<LocalKey>)
        requires
            t < n,
            self.party_index matches Some(i) ==> 1 <= i <= n,
            paillier_pair_wf(paillier_key.ek, paillier_key.dk),
        ensures
            !batch_count_ok(refresh_messages@, t) ==> r == FsDkrResult::<LocalKey>::Err(
                FsDkrError::PartiesCountError,
            ),
            batch_count_ok(refresh_messages@, t) && !batch_indices_in_range(refresh_messages@, n)
                ==> r == FsDkrResult::<LocalKey>::Err(FsDkrError::PartyIndexRangeError),
            batch_count_ok(refresh_messages@, t) && batch_indices_in_range(refresh_messages@, n)
                && !batch_indices_distinct(refresh_messages@) ==> r == FsDkrResult::<
                LocalKey,
            >::Err(FsDkrError::DuplicatePartyIndexError),
            batch_count_ok(refresh_messages@, t) && batch_indices_in_range(refresh_messages@, n)
                && batch_indices_distinct(refresh_messages@) && !batch_sizes_ok(
                refresh_messages@,
                n,
            ) ==> r == FsDkrResult::<LocalKey>::Err(FsDkrError::SizeMismatchError),
            batch_count_ok(refresh_messages@, t) && batch_indices_in_range(refresh_messages@, n)
                && batch_indices_distinct(refresh_messages@) && batch_sizes_ok(
                refresh_messages@,
                n,
            ) && !batch_ciphertexts_nonneg(refresh_messages@) ==> r == FsDkrResult::<
                LocalKey,
            >::Err(FsDkrError::InvalidCiphertextError),
            batch_valid(refresh_messages@, t, n) && self.party_index is None ==> r
                == FsDkrResult::<LocalKey>::Err(FsDkrError::NewPartyUnassignedIndexError),
            batch_valid(refresh_messages@, t, n) && self.party_index is Some
                && !join_indices_assigned(join_messages@) ==> r == FsDkrResult::<LocalKey>::Err(
                FsDkrError::NewPartyUnassignedIndexError,
            ),
            batch_valid(refresh_messages@, t, n) && self.party_index is Some
                && join_indices_assigned(join_messages@) && !public_keys_agree(refresh_messages@)
                ==> r == FsDkrResult::<LocalKey>::Err(FsDkrError::BroadcastedPublicKeyError),
            batch_valid(refresh_messages@, t, n) && self.party_index is Some
                && join_indices_assigned(join_messages@) && public_keys_agree(refresh_messages@)
                ==> (r is Ok || r == FsDkrResult::<LocalKey>::Err(
                FsDkrError::SetupSamplingError,
            )),
            batch_valid(refresh_messages@, t, n) && self.party_index is Some
                && join_indices_assigned(join_messages@) && public_keys_agree(refresh_messages@)
                && (forall|q: int|
                0 <= q < n ==> slot_covered(
                    *self,
                    paillier_key.ek,
                    refresh_messages@,
                    join_messages@,
                    q,
                )) ==> r is Ok,
            r is Ok ==> batch_valid(refresh_messages@, t, n) && self.party_index is Some
                && join_indices_assigned(join_messages@) && public_keys_agree(refresh_messages@),
            r matches Ok(lk) ==> {
                &&& Some(lk.i) == self.party_index
                &&& lk.t == t
                &&& lk.n == n
                &&& lk.paillier_dk == paillier_key.dk
                &&& lk.pk_vec@.len() == n
                &&& lk.y_sum_s == refresh_messages@[0].public_key
                &&& lk.paillier_key_vec@.len() == n
                &&& lk.h1_h2_n_tilde_vec@.len() == n
                &&& lk.vss_scheme.threshold == t
                &&& lk.vss_scheme.share_count == n
                &&& lk.vss_scheme.commitments@.len() == t + 1
                &&& scalar_value(lk.keys_linear.x_i) == paillier_dec(
                    bigint_value(paillier_key.dk.p),
                    bigint_value(paillier_key.dk.q),
                    combined_ciphertext(
                        refresh_messages@,
                        lk.i as int,
                        bigint_value(paillier_key.ek.nn),
                    ),
                ) % secp256k1_group_order()
                &&& lk.keys_linear.x_i == scalar_of(
                    paillier_dec(
                        bigint_value(paillier_key.dk.p),
                        bigint_value(paillier_key.dk.q),
                        combined_ciphertext(
                            refresh_messages@,
                            lk.i as int,
                            bigint_value(paillier_key.ek.nn),
                        ),
                    ) % secp256k1_group_order(),
                )
                &&& lk.keys_linear.y == gen_mul(lk.keys_linear.x_i)
                &&& lk.vss_scheme.commitments@[0] == gen_mul(lk.keys_linear.x_i)
                &&& forall|slot: int|
                    0 <= slot < n ==> lk.pk_vec@[slot] == weighted_point_sum(
                        refresh_messages@,
                        slot,
                        t as int,
                    )
                &&& forall|q: int|
                    0 <= q < n ==> indexed_keys_ok(
                        *self,
                        paillier_key.ek,
                        refresh_messages@,
                        join_messages@,
                        lk.paillier_key_vec@,
                        lk.h1_h2_n_tilde_vec@,
                        q,
                    )
            },
    {
        match RefreshMessage::validate_collect(refresh_messages, t, n) {
            Ok(()) => {},
            Err(e) => {
                return Err(e);
            },
        }
        let party_index = match self.party_index {
            Some(i) => i,
            None => {
                return Err(FsDkrError::NewPartyUnassignedIndexError);
            },
        };
        let mut jk: usize = 0;
        while jk < join_messages.len()
            invariant
                batch_valid(refresh_messages@, t, n),
                self.party_index is Some,
                jk <= join_messages@.len(),
                forall|x: int| 0 <= x < jk ==> (#[trigger] join_messages@[x]).party_index is Some,
            decreases join_messages@.len() - jk,
        {
            if join_messages[jk].party_index.is_none() {
                return Err(FsDkrError::NewPartyUnassignedIndexError);
            }
            jk += 1;
        }
        let mut ak: usize = 0;
        while ak < refresh_messages.len()
            invariant
                batch_valid(refresh_messages@, t, n),
                self.party_index is Some,
                join_indices_assigned(join_messages@),
                ak <= refresh_messages@.len(),
                forall|x: int|
                    0 <= x < ak ==> (#[trigger] refresh_messages@[x]).public_key
                        == refresh_messages@[0].public_key,
            decreases refresh_messages@.len() - ak,
        {
            if !point_eq(&refresh_messages[ak].public_key, &refresh_messages[0].public_key) {
                return Err(FsDkrError::BroadcastedPublicKeyError);
            }
            ak += 1;
        }

        let (cipher_text_sum, li_vec) = RefreshMessage::get_ciphertext_sum(
            refresh_messages,
            party_index,
            t,
            n,
            &paillier_key.ek,
        );
        let new_share = paillier_decrypt(&paillier_key.dk, &cipher_text_sum);
        proof {
            assert(bigint_value(new_share) == paillier_dec(
                bigint_value(paillier_key.dk.p),
                bigint_value(paillier_key.dk.q),
                combined_ciphertext(
                    refresh_messages@,
                    party_index as int,
                    bigint_value(paillier_key.ek.nn),
                ),
            ));
        }
        let new_share_fe = scalar_from_bigint(&new_share);
        let paillier_dk = paillier_key.dk.clone();
        let key_linear_x_i = new_share_fe.clone();
        let key_linear_y = generator_mul(&new_share_fe);
        let keys_linear = SharedKeys { x_i: key_linear_x_i, y: key_linear_y };

        let mut pk_vec: Vec<Secp256k1Point> = Vec::new();
        let mut i: usize = 0;
        while i < n as usize
            invariant
                batch_valid(refresh_messages@, t, n),
                li_vec@.len() == t + 1,
                li_vec@ == batch_lagrange(refresh_messages@),
                i <= n,
                pk_vec@.len() == i,
                forall|slot: int|
                    0 <= slot < i ==> pk_vec@[slot] == weighted_point_sum(
                        refresh_messages@,
                        slot,
                        t as int,
                    ),
            decreases n - i,
        {
            let mut acc = point_mul(&refresh_messages[0].points_committed_vec[i], &li_vec[0]);
            let mut j: usize = 1;
            while j < t as usize + 1
                invariant
                    batch_valid(refresh_messages@, t, n),
                    li_vec@.len() == t + 1,
                    li_vec@ == batch_lagrange(refresh_messages@),
                    i < n,
                    1 <= j <= t + 1,
                    acc == weighted_point_sum(refresh_messages@, i as int, j - 1),
                decreases t + 1 - j,
            {
                acc = point_add(
                    &acc,
                    &point_mul(&refresh_messages[j].points_committed_vec[i], &li_vec[j]),
                );
                j += 1;
            }
            pk_vec.push(acc);
            i += 1;
        }

        let material = match index_public_material(
            self,
            &paillier_key.ek,
            refresh_messages,
            join_messages,
            n,
        ) {
            Ok(v) => v,
            Err(e) => {
                return Err(e);
            },
        };

        let mut paillier_key_vec: Vec<EncryptionKey> = Vec::new();
        let mut h1_h2_n_tilde_vec: Vec<DLogStatement> = Vec::new();
        let mut q: usize = 0;
        while q < material.len()
            invariant
                material@.len() == n,
                forall|x: int|
                    0 <= x < n ==> material_slot_ok(
                        *self,
                        paillier_key.ek,
                        refresh_messages@,
                        join_messages@,
                        material@,
                        x,
                    ),
                q <= n,
                paillier_key_vec@.len() == q,
                h1_h2_n_tilde_vec@.len() == q,
                forall|x: int|
                    0 <= x < q ==> paillier_key_vec@[x] == (#[trigger] material@[x]).ek()
                        && h1_h2_n_tilde_vec@[x] == material@[x].statement(),
            decreases n - q,
        {
            match &material[q] {
                PartyMaterial::Known { ek, statement } => {
                    paillier_key_vec.push(ek.clone());
                    h1_h2_n_tilde_vec.push(statement.clone());
                },
                PartyMaterial::Placeholder { ek, statement } => {
                    paillier_key_vec.push(ek.clone());
                    h1_h2_n_tilde_vec.push(statement.clone());
                },
            }
            q += 1;
        }
        proof {
            assert forall|x: int|
                0 <= x < n implies indexed_keys_ok(
                *self,
                paillier_key.ek,
                refresh_messages@,
                join_messages@,
                paillier_key_vec@,
                h1_h2_n_tilde_vec@,
                x,
            ) by {
                assert(material_slot_ok(
                    *self,
                    paillier_key.ek,
                    refresh_messages@,
                    join_messages@,
                    material@,
                    x,
                ));
                assert(paillier_key_vec@[x] == material@[x].ek());
                assert(h1_h2_n_tilde_vec@[x] == material@[x].statement());
            }
        }

        let vss_scheme = vss_share(t, n, &new_share_fe);
        let y_sum_s = refresh_messages[0].public_key.clone();

        let local_key = LocalKey {
            paillier_dk,
            pk_vec,
            keys_linear,
            paillier_key_vec,
            y_sum_s,
            h1_h2_n_tilde_vec,
            vss_scheme,
            i: party_index,
            t,
            n,
        };

        Ok(local_key)
    }

    /// The assigned party index, or the unassigned-index failure while the
    /// coordination layer has not set one.
    pub fn get_party_index(&self) -> (r: FsDkrResult<u16>)
        ensures
            match r {
                Ok(i) => self.party_index == Some(i),
                Err(e) => self.party_index is None && e
                    == FsDkrError::NewPartyUnassignedIndexError,
            },
    {
        match self.party_index {
            Some(i) => Ok(i),
            None => Err(FsDkrError::NewPartyUnassignedIndexError),
        }
    }
}

} // verus!
