//! The per-existing-party refresh record that the collection engine
//! consumes, its structural validation, and the Lagrange-weighted
//! homomorphic combination of the encrypted share contributions.

use vstd::prelude::*;

use curv::elliptic::curves::secp256_k1::{Secp256k1Point, Secp256k1Scalar};
use curv::BigInt;
use kzen_paillier::EncryptionKey;
use zk_paillier::zkproofs::DLogStatement;

use vstd::arithmetic::power::pow;

use crate::errors::{FsDkrError, FsDkrResult};
use crate::primitives::{
    bigint_ge_zero, bigint_value, lagrange_at_zero, lagrange_basis_at_zero, paillier_add,
    paillier_mul, scalar_to_bigint, scalar_value,
};

verus! {

/// One existing party's broadcast contribution to a refresh round,
/// consumed read-only: its slot index, its Paillier public key, its
/// auxiliary discrete-log statement, the elliptic-curve commitments of its
/// re-sharing polynomial evaluated at every slot `1..=n`, the encrypted
/// share contribution addressed to every slot, and the group public key it
/// advertises.
#[derive(Clone, Debug)]
pub struct RefreshMessage {
    pub party_index: u16,
    pub ek: EncryptionKey,
    pub dlog_statement: DLogStatement,
    pub points_committed_vec: Vec<Secp256k1Point>,
    pub points_encrypted_vec: Vec<BigInt>,
    pub public_key: Secp256k1Point,
}

/// The batch holds exactly the `t + 1` messages a threshold-`t`
/// reconstruction combines.
pub open spec fn batch_count_ok(msgs: Seq<RefreshMessage>, t: u16) -> bool {
    msgs.len() == t + 1
}

/// Every sender's slot index lies in `1..=n`.
pub open spec fn batch_indices_in_range(msgs: Seq<RefreshMessage>, n: u16) -> bool {
    forall|k: int| 0 <= k < msgs.len() ==> 1 <= (#[trigger] msgs[k]).party_index <= n
}

/// No two messages come from the same slot.
pub open spec fn batch_indices_distinct(msgs: Seq<RefreshMessage>) -> bool {
    forall|k: int, l: int|
        0 <= k < l < msgs.len() ==> msgs[k].party_index != msgs[l].party_index
}

/// Every message carries one committed point and one encrypted
/// contribution per slot `1..=n`.
pub open spec fn batch_sizes_ok(msgs: Seq<RefreshMessage>, n: u16) -> bool {
    forall|k: int|
        0 <= k < msgs.len() ==> (#[trigger] msgs[k]).points_committed_vec@.len() == n
            && msgs[k].points_encrypted_vec@.len() == n
}

/// Every encrypted contribution is a non-negative integer, as a Paillier
/// ciphertext — a residue modulo `n²` — must be.
pub open spec fn batch_ciphertexts_nonneg(msgs: Seq<RefreshMessage>) -> bool {
    forall|k: int, e: int|
        0 <= k < msgs.len() && 0 <= e < msgs[k].points_encrypted_vec@.len() ==> bigint_value(
            #[trigger] msgs[k].points_encrypted_vec@[e],
        ) >= 0
}

/// The structural validity of a refresh batch against `(t, n)`.
pub open spec fn batch_valid(msgs: Seq<RefreshMessage>, t: u16, n: u16) -> bool {
    &&& batch_count_ok(msgs, t)
    &&& batch_indices_in_range(msgs, n)
    &&& batch_indices_distinct(msgs)
    &&& batch_sizes_ok(msgs, n)
    &&& batch_ciphertexts_nonneg(msgs)
}

/// The slot indices of the batch, in order.
pub open spec fn batch_indices(msgs: Seq<RefreshMessage>) -> Seq<u16> {
    Seq::new(msgs.len(), |k: int| msgs[k].party_index)
}

/// The Lagrange coefficient of each sender for interpolation at zero over
/// the batch's slot indices, in batch order.
pub open spec fn batch_lagrange(msgs: Seq<RefreshMessage>) -> Seq<Secp256k1Scalar> {
    Seq::new(msgs.len(), |k: int| lagrange_at_zero(k, batch_indices(msgs)))
}

/// Sender `k`'s encrypted contribution for `slot` (counting from zero),
/// raised to its Lagrange coefficient modulo `nn`.
pub open spec fn weighted_term(msgs: Seq<RefreshMessage>, k: int, slot: int, nn: int) -> int {
    pow(
        bigint_value(msgs[k].points_encrypted_vec@[slot]),
        scalar_value(batch_lagrange(msgs)[k]) as nat,
    ) % nn
}

/// The homomorphic product of the weighted terms of senders `0..=k` for
/// `slot`, modulo `nn`.
pub open spec fn combined_upto(msgs: Seq<RefreshMessage>, slot: int, nn: int, k: int) -> int
    decreases k,
{
    if k <= 0 {
        weighted_term(msgs, 0, slot, nn)
    } else {
        (combined_upto(msgs, slot, nn, k - 1) * weighted_term(msgs, k, slot, nn)) % nn
    }
}

/// The combined ciphertext addressed to slot `party_index`: every
/// sender's weighted contribution folded under the homomorphic addition.
pub open spec fn combined_ciphertext(msgs: Seq<RefreshMessage>, party_index: int, nn: int) -> int {
    combined_upto(msgs, party_index - 1, nn, msgs.len() - 1)
}

/// All messages of the batch advertise the first message's group public
/// key.
pub open spec fn public_keys_agree(msgs: Seq<RefreshMessage>) -> bool {
    forall|k: int| 0 <= k < msgs.len() ==> (#[trigger] msgs[k]).public_key == msgs[0].public_key
}

impl RefreshMessage {
    /// Structural/count validation of a refresh batch against `(t, n)`:
    /// exactly `t + 1` messages, sender slots in range and pairwise
    /// distinct, dense per-slot vectors, and non-negative ciphertexts.
    /// The checks run in this order, so the error names the first rule
    /// broken.
    pub fn validate_collect(refresh_messages: &[RefreshMessage], t: u16, n: u16) -> (r:
        FsDkrResult<()>)
        ensures
            r is Ok <==> batch_valid(refresh_messages@, t, n),
            !batch_count_ok(refresh_messages@, t) ==> r == FsDkrResult::<()>::Err(
                FsDkrError::PartiesCountError,
            ),
            batch_count_ok(refresh_messages@, t) && !batch_indices_in_range(refresh_messages@, n)
                ==> r == FsDkrResult::<()>::Err(FsDkrError::PartyIndexRangeError),
            batch_count_ok(refresh_messages@, t) && batch_indices_in_range(refresh_messages@, n)
                && !batch_indices_distinct(refresh_messages@) ==> r == FsDkrResult::<()>::Err(
                FsDkrError::DuplicatePartyIndexError,
            ),
            batch_count_ok(refresh_messages@, t) && batch_indices_in_range(refresh_messages@, n)
                && batch_indices_distinct(refresh_messages@) && !batch_sizes_ok(
                refresh_messages@,
                n,
            ) ==> r == FsDkrResult::<()>::Err(FsDkrError::SizeMismatchError),
            batch_count_ok(refresh_messages@, t) && batch_indices_in_range(refresh_messages@, n)
                && batch_indices_distinct(refresh_messages@) && batch_sizes_ok(
                refresh_messages@,
                n,
            ) && !batch_ciphertexts_nonneg(refresh_messages@) ==> r == FsDkrResult::<()>::Err(
                FsDkrError::InvalidCiphertextError,
            ),
    {
        let m = refresh_messages.len();
        if m != t as usize + 1 {
            return Err(FsDkrError::PartiesCountError);
        }
        let mut k: usize = 0;
        while k < m
            invariant
                m == refresh_messages@.len(),
                m == t + 1,
                k <= m,
                forall|x: int|
                    0 <= x < k ==> 1 <= (#[trigger] refresh_messages@[x]).party_index <= n,
            decreases m - k,
        {
            let idx = refresh_messages[k].party_index;
            if idx < 1 || idx > n {
                return Err(FsDkrError::PartyIndexRangeError);
            }
            k += 1;
        }
        let mut a: usize = 0;
        while a < m
            invariant
                m == refresh_messages@.len(),
                m == t + 1,
                batch_indices_in_range(refresh_messages@, n),
                a <= m,
                forall|x: int, y: int|
                    0 <= x < y < m && x < a ==> refresh_messages@[x].party_index
                        != refresh_messages@[y].party_index,
            decreases m - a,
        {
            let mut b: usize = a + 1;
            while b < m
                invariant
                    m == refresh_messages@.len(),
                    m == t + 1,
                    batch_indices_in_range(refresh_messages@, n),
                    a < m,
                    a < b <= m,
                    forall|x: int, y: int|
                        0 <= x < y < m && x < a ==> refresh_messages@[x].party_index
                            != refresh_messages@[y].party_index,
                    forall|y: int|
                        a < y < b ==> refresh_messages@[a as int].party_index
                            != refresh_messages@[y].party_index,
                decreases m - b,
            {
                if refresh_messages[a].party_index == refresh_messages[b].party_index {
                    return Err(FsDkrError::DuplicatePartyIndexError);
                }
                b += 1;
            }
            a += 1;
        }
        let mut s: usize = 0;
        while s < m
            invariant
                m == refresh_messages@.len(),
                m == t + 1,
                batch_indices_in_range(refresh_messages@, n),
                batch_indices_distinct(refresh_messages@),
                s <= m,
                forall|x: int|
                    0 <= x < s ==> (#[trigger] refresh_messages@[x]).points_committed_vec@.len()
                        == n && refresh_messages@[x].points_encrypted_vec@.len() == n,
            decreases m - s,
        {
            if refresh_messages[s].points_committed_vec.len() != n as usize
                || refresh_messages[s].points_encrypted_vec.len() != n as usize {
                return Err(FsDkrError::SizeMismatchError);
            }
            s += 1;
        }
        let mut c: usize = 0;
        while c < m
            invariant
                m == refresh_messages@.len(),
                m == t + 1,
                batch_indices_in_range(refresh_messages@, n),
                batch_indices_distinct(refresh_messages@),
                batch_sizes_ok(refresh_messages@, n),
                c <= m,
                forall|x: int, y: int|
                    0 <= x < c && 0 <= y < refresh_messages@[x].points_encrypted_vec@.len()
                        ==> bigint_value(
                        #[trigger] refresh_messages@[x].points_encrypted_vec@[y],
                    ) >= 0,
            decreases m - c,
        {
            let entries = refresh_messages[c].points_encrypted_vec.len();
            let mut e: usize = 0;
            while e < entries
                invariant
                    m == refresh_messages@.len(),
                    m == t + 1,
                    batch_indices_in_range(refresh_messages@, n),
                    batch_indices_distinct(refresh_messages@),
                    batch_sizes_ok(refresh_messages@, n),
                    c < m,
                    entries == refresh_messages@[c as int].points_encrypted_vec@.len(),
                    e <= entries,
                    forall|x: int, y: int|
                        0 <= x < c && 0 <= y < refresh_messages@[x].points_encrypted_vec@.len()
                            ==> bigint_value(
                            #[trigger] refresh_messages@[x].points_encrypted_vec@[y],
                        ) >= 0,
                    forall|y: int|
                        0 <= y < e ==> bigint_value(
                            #[trigger] refresh_messages@[c as int].points_encrypted_vec@[y],
                        ) >= 0,
                decreases entries - e,
            {
                if !bigint_ge_zero(&refresh_messages[c].points_encrypted_vec[e]) {
                    return Err(FsDkrError::InvalidCiphertextError);
                }
                e += 1;
            }
            c += 1;
        }
        Ok(())
    }

    /// Lagrange-weighted homomorphic combination of the encrypted
    /// contributions addressed to slot `party_index`: under Paillier's
    /// additive homomorphism the returned ciphertext carries the new
    /// party's share, the interpolation of the senders' re-sharing
    /// polynomials at this slot. Also returns the Lagrange coefficient of
    /// each sender, in batch order.
    pub fn get_ciphertext_sum(
        refresh_messages: &[RefreshMessage],
        party_index: u16,
        t: u16,
        n: u16,
        ek: &EncryptionKey,
    ) -> (r: (BigInt, Vec<Secp256k1Scalar>))
        requires
            t < n,
            batch_valid(refresh_messages@, t, n),
            1 <= party_index <= n,
            bigint_value(ek.nn) > 0,
        ensures
            r.1@ == batch_lagrange(refresh_messages@),
            bigint_value(r.0) == combined_ciphertext(
                refresh_messages@,
                party_index as int,
                bigint_value(ek.nn),
            ),
            0 <= bigint_value(r.0),
    {
        let m = refresh_messages.len();
        let mut indices: Vec<u16> = Vec::new();
        let mut i: usize = 0;
        while i < m
            invariant
                m == refresh_messages@.len(),
                i <= m,
                indices@.len() == i,
                forall|x: int| 0 <= x < i ==> indices@[x] == refresh_messages@[x].party_index,
            decreases m - i,
        {
            indices.push(refresh_messages[i].party_index);
            i += 1;
        }
        assert(forall|x: int, y: int| 0 <= x < y < m ==> indices@[x] != indices@[y]);
        proof {
            assert(indices@ =~= batch_indices(refresh_messages@));
        }
        let mut li_vec: Vec<Secp256k1Scalar> = Vec::new();
        let mut j: usize = 0;
        while j < m
            invariant
                m == refresh_messages@.len(),
                m <= 0xffff,
                indices@.len() == m,
                indices@ == batch_indices(refresh_messages@),
                forall|x: int, y: int| 0 <= x < y < m ==> indices@[x] != indices@[y],
                j <= m,
                li_vec@.len() == j,
                forall|x: int| 0 <= x < j ==> li_vec@[x] == lagrange_at_zero(x, indices@),
            decreases m - j,
        {
            li_vec.push(lagrange_basis_at_zero(j, &indices));
            j += 1;
        }
        proof {
            assert(li_vec@ =~= batch_lagrange(refresh_messages@));
        }
        let pi = party_index as usize - 1;
        let li0 = scalar_to_bigint(&li_vec[0]);
        let mut sum = paillier_mul(ek, &refresh_messages[0].points_encrypted_vec[pi], &li0);
        proof {
            assert(bigint_value(sum) == weighted_term(
                refresh_messages@,
                0,
                pi as int,
                bigint_value(ek.nn),
            ));
        }
        let mut w: usize = 1;
        while w < m
            invariant
                m == refresh_messages@.len(),
                batch_sizes_ok(refresh_messages@, n),
                batch_ciphertexts_nonneg(refresh_messages@),
                bigint_value(ek.nn) > 0,
                li_vec@.len() == m,
                li_vec@ == batch_lagrange(refresh_messages@),
                1 <= w <= m,
                pi < n,
                0 <= bigint_value(sum),
                bigint_value(sum) == combined_upto(
                    refresh_messages@,
                    pi as int,
                    bigint_value(ek.nn),
                    w - 1,
                ),
            decreases m - w,
        {
            let liw = scalar_to_bigint(&li_vec[w]);
            let term = paillier_mul(ek, &refresh_messages[w].points_encrypted_vec[pi], &liw);
            proof {
                assert(bigint_value(term) == weighted_term(
                    refresh_messages@,
                    w as int,
                    pi as int,
                    bigint_value(ek.nn),
                ));
            }
            sum = paillier_add(ek, &sum, &term);
            w += 1;
        }
        (sum, li_vec)
    }
}

} // verus!
