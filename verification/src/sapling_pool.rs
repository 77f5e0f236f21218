//! The Sapling pool: its outputs, the keys tried on them, and the scan over both.

use crate::consensus::{zip212_at, zip212_policy};
use crate::model::{DecryptedNote, NoteView, ShieldedProtocol};
use crate::scan::{
    as_recovered, pool_notes, scan_pool, PoolModel, Recovered, ShieldedPool, Strategy,
};
use crate::transaction::{transaction_id, txid_of};
use sapling_crypto::bundle::{GrothProofBytes, OutputDescription};
use sapling_crypto::keys::OutgoingViewingKey;
use sapling_crypto::note_encryption::{PreparedIncomingViewingKey, SaplingDomain, Zip212Enforcement};
use sapling_crypto::zip32::DiversifiableFullViewingKey;
use vstd::prelude::*;
use zcash_keys::keys::UnifiedFullViewingKey;
use zcash_note_encryption::{try_note_decryption, try_output_recovery_with_ovk};
use zcash_primitives::transaction::Transaction;
use zcash_protocol::consensus::Network as ConsensusNetwork;
use zip32::Scope;

verus! {

/// The Sapling key of `sapling_crypto` from which viewing keys of both scopes derive.
#[verifier::external_type_specification]
#[verifier::external_body]
pub struct ExDiversifiableFullViewingKey(DiversifiableFullViewingKey);

/// A Sapling incoming viewing key of `sapling_crypto`, prepared for trial decryption.
#[verifier::external_type_specification]
#[verifier::external_body]
pub struct ExPreparedIncomingViewingKey(PreparedIncomingViewingKey);

/// A Sapling outgoing viewing key of `sapling_crypto`.
#[verifier::external_type_specification]
#[verifier::external_body]
pub struct ExOutgoingViewingKey(OutgoingViewingKey);

/// One output of a Sapling bundle, as `sapling_crypto` holds it.
#[verifier::external_type_specification]
#[verifier::external_body]
#[verifier::reject_recursive_types(Proof)]
pub struct ExOutputDescription<Proof>(OutputDescription<Proof>);

/// The Sapling component of a unified key, if it has one.
pub uninterp spec fn sapling_key_of(ufvk: UnifiedFullViewingKey) -> Option<
    DiversifiableFullViewingKey,
>;

/// The outputs of a transaction's Sapling bundle, in bundle order, if it has such a bundle.
pub uninterp spec fn sapling_outputs_of(tx: Transaction) -> Option<
    Seq<OutputDescription<GrothProofBytes>>,
>;

/// The prepared incoming viewing key of a Sapling key for a scope.
pub uninterp spec fn sapling_ivk_of(
    key: DiversifiableFullViewingKey,
    scope: Scope,
) -> PreparedIncomingViewingKey;

/// The outgoing viewing key of a Sapling key's external scope.
pub uninterp spec fn sapling_ovk_of(key: DiversifiableFullViewingKey) -> OutgoingViewingKey;

/// Value and memo that trial decryption of a Sapling output under an incoming viewing
/// key yields, if the output is addressed to that key.
pub uninterp spec fn sapling_decryption(
    policy: Zip212Enforcement,
    ivk: PreparedIncomingViewingKey,
    output: OutputDescription<GrothProofBytes>,
) -> Option<(u64, [u8; 512])>;

/// Value and memo that output recovery of a Sapling output under an outgoing viewing key
/// yields, if the output was sent with that key.
pub uninterp spec fn sapling_recovery(
    policy: Zip212Enforcement,
    ovk: OutgoingViewingKey,
    output: OutputDescription<GrothProofBytes>,
) -> Option<(u64, [u8; 512])>;

/// `UnifiedFullViewingKey::sapling` hands out the key's Sapling component, which is a
/// part of the key and the same on every call.
pub assume_specification[ UnifiedFullViewingKey::sapling ](ufvk: &UnifiedFullViewingKey) -> (key:
    Option<&DiversifiableFullViewingKey>)
    ensures
        key matches Some(k) ==> sapling_key_of(*ufvk) == Some(*k),
        key is None ==> sapling_key_of(*ufvk) is None,
;

/// Calls `Transaction::sapling_bundle` and `Bundle::shielded_outputs`.
///
/// Trusted: the outputs are a part of the transaction, handed out in bundle order.
#[verifier::external_body]
fn sapling_outputs(tx: &Transaction) -> (outputs: Option<&[OutputDescription<GrothProofBytes>]>)
    ensures
        outputs matches Some(o) ==> sapling_outputs_of(*tx) == Some(o@),
        outputs is None ==> sapling_outputs_of(*tx) is None,
{
    tx.sapling_bundle().map(|bundle| bundle.shielded_outputs())
}

/// Calls `DiversifiableFullViewingKey::to_ivk` and `PreparedIncomingViewingKey::new`.
///
/// Trusted: the prepared key depends on the full viewing key and the scope alone.
#[verifier::external_body]
fn sapling_ivk(key: &DiversifiableFullViewingKey, scope: Scope) -> (ivk: PreparedIncomingViewingKey)
    ensures
        ivk == sapling_ivk_of(*key, scope),
{
    PreparedIncomingViewingKey::new(&key.to_ivk(scope))
}

/// Reads the outgoing viewing key out of `DiversifiableFullViewingKey::fvk`.
#[verifier::external_body]
fn sapling_ovk(key: &DiversifiableFullViewingKey) -> (ovk: OutgoingViewingKey)
    ensures
        ovk == sapling_ovk_of(*key),
{
    key.fvk().ovk
}

/// Calls `zcash_note_encryption::try_note_decryption` in the Sapling domain built for
/// `policy`, and keeps the note's value and the memo.
///
/// Trusted: the outcome depends on the policy, the key and the output alone.
#[verifier::external_body]
fn sapling_try_decryption(
    policy: Zip212Enforcement,
    ivk: &PreparedIncomingViewingKey,
    output: &OutputDescription<GrothProofBytes>,
) -> (opened: Option<(u64, [u8; 512])>)
    ensures
        opened == sapling_decryption(policy, *ivk, *output),
{
    try_note_decryption(&SaplingDomain::new(policy), ivk, output).map(
        |(note, _, memo)| (note.value().inner(), memo),
    )
}

/// Calls `zcash_note_encryption::try_output_recovery_with_ovk` in the Sapling domain built
/// for `policy`, on the output with its own value commitment and outgoing ciphertext, and
/// keeps the note's value and the memo.
///
/// Trusted: the outcome depends on the policy, the key and the output alone.
#[verifier::external_body]
fn sapling_try_recovery(
    policy: Zip212Enforcement,
    ovk: &OutgoingViewingKey,
    output: &OutputDescription<GrothProofBytes>,
) -> (opened: Option<(u64, [u8; 512])>)
    ensures
        opened == sapling_recovery(policy, *ovk, *output),
{
    try_output_recovery_with_ovk(
        &SaplingDomain::new(policy),
        ovk,
        output,
        output.cv(),
        output.out_ciphertext(),
    ).map(|(note, _, memo)| (note.value().inner(), memo))
}

/// What each strategy recovers from each of `outputs` under the given policy and keys.
pub open spec fn sapling_model(
    policy: Zip212Enforcement,
    ivk_external: PreparedIncomingViewingKey,
    ivk_internal: PreparedIncomingViewingKey,
    ovk: OutgoingViewingKey,
    outputs: Seq<OutputDescription<GrothProofBytes>>,
) -> PoolModel {
    PoolModel {
        protocol: ShieldedProtocol::Sapling,
        len: outputs.len(),
        recovered: |strategy: Strategy, index: int|
            as_recovered(
                match strategy {
                    Strategy::ExternalIncoming => sapling_decryption(
                        policy,
                        ivk_external,
                        outputs[index],
                    ),
                    Strategy::InternalIncoming => sapling_decryption(
                        policy,
                        ivk_internal,
                        outputs[index],
                    ),
                    Strategy::OutgoingRecovery => sapling_recovery(policy, ovk, outputs[index]),
                },
            ),
    }
}

/// The Sapling pool as `ufvk` sees it in `tx` at `height`, or `None` when the key has no
/// Sapling component or the transaction no Sapling bundle.
pub open spec fn sapling_pool_of(
    params: ConsensusNetwork,
    height: u32,
    ufvk: UnifiedFullViewingKey,
    tx: Transaction,
) -> Option<PoolModel> {
    match (sapling_key_of(ufvk), sapling_outputs_of(tx)) {
        (Some(key), Some(outputs)) => Some(
            sapling_model(
                zip212_policy(params, height),
                sapling_ivk_of(key, Scope::External),
                sapling_ivk_of(key, Scope::Internal),
                sapling_ovk_of(key),
                outputs,
            ),
        ),
        _ => None,
    }
}

/// The Sapling notes of `tx` that `ufvk` opens, in bundle order.
pub open spec fn sapling_notes(
    params: ConsensusNetwork,
    height: u32,
    ufvk: UnifiedFullViewingKey,
    tx: Transaction,
) -> Seq<NoteView> {
    match sapling_pool_of(params, height, ufvk, tx) {
        Some(pool) => pool_notes(pool, txid_of(tx)@, height),
        None => Seq::empty(),
    }
}

/// The outputs of a Sapling bundle with the policy and the keys to try on them.
pub struct SaplingPool<'a> {
    policy: Zip212Enforcement,
    ivk_external: PreparedIncomingViewingKey,
    ivk_internal: PreparedIncomingViewingKey,
    ovk: OutgoingViewingKey,
    outputs: &'a [OutputDescription<GrothProofBytes>],
}

impl<'a> SaplingPool<'a> {
    /// Derives the keys of both scopes from `ufvk` and the policy from the height, once
    /// for all outputs of `tx`.
    pub fn prepare(
        params: &ConsensusNetwork,
        height: u32,
        ufvk: &UnifiedFullViewingKey,
        tx: &'a Transaction,
    ) -> (pool: Option<SaplingPool<'a>>)
        ensures
            match pool {
                Some(p) => sapling_pool_of(*params, height, *ufvk, *tx) == Some(p.model()),
                None => sapling_pool_of(*params, height, *ufvk, *tx) is None,
            },
    {
        let key = match ufvk.sapling() {
            Some(key) => key,
            None => {
                return None;
            },
        };
        let outputs = match sapling_outputs(tx) {
            Some(outputs) => outputs,
            None => {
                return None;
            },
        };
        Some(
            SaplingPool {
                policy: zip212_at(params, height),
                ivk_external: sapling_ivk(key, Scope::External),
                ivk_internal: sapling_ivk(key, Scope::Internal),
                ovk: sapling_ovk(key),
                outputs,
            },
        )
    }
}

impl<'a> ShieldedPool for SaplingPool<'a> {
    closed spec fn model(&self) -> PoolModel {
        sapling_model(self.policy, self.ivk_external, self.ivk_internal, self.ovk, self.outputs@)
    }

    fn protocol_tag(&self) -> (protocol: ShieldedProtocol) {
        ShieldedProtocol::Sapling
    }

    fn output_count(&self) -> (count: usize) {
        self.outputs.len()
    }

    fn attempt(&self, strategy: Strategy, index: usize) -> (found: Option<Recovered>) {
        let output = &self.outputs[index];
        let opened = match strategy {
            Strategy::ExternalIncoming => sapling_try_decryption(
                self.policy,
                &self.ivk_external,
                output,
            ),
            Strategy::InternalIncoming => sapling_try_decryption(
                self.policy,
                &self.ivk_internal,
                output,
            ),
            Strategy::OutgoingRecovery => sapling_try_recovery(self.policy, &self.ovk, output),
        };
        match opened {
            Some((value, memo)) => Some(Recovered { value, memo }),
            None => None,
        }
    }
}

/// Appends to `notes` the Sapling notes of `tx` that `ufvk` opens, in bundle order.
///
/// Appends nothing when the key has no Sapling component or the transaction no Sapling
/// bundle.
pub fn decrypt_sapling_outputs(
    params: &ConsensusNetwork,
    height: u32,
    ufvk: &UnifiedFullViewingKey,
    tx: &Transaction,
    notes: &mut Vec<DecryptedNote>,
)
    ensures
        final(notes).deep_view() == old(notes).deep_view() + sapling_notes(
            *params,
            height,
            *ufvk,
            *tx,
        ),
{
    if let Some(pool) = SaplingPool::prepare(params, height, ufvk, tx) {
        let txid = transaction_id(tx);
        scan_pool(&pool, &txid, height, notes);
    }
}

} // verus!
