//! The Orchard pool: its actions, the keys tried on them, and the scan over both.

use crate::model::{DecryptedNote, NoteView, ShieldedProtocol};
use crate::scan::{
    as_recovered, pool_notes, scan_pool, PoolModel, Recovered, ShieldedPool, Strategy,
};
use crate::transaction::{transaction_id, txid_of};
use orchard::keys::{FullViewingKey, OutgoingViewingKey, PreparedIncomingViewingKey};
use orchard::note_encryption::OrchardDomain;
use vstd::prelude::*;
use zcash_keys::keys::UnifiedFullViewingKey;
use zcash_note_encryption::{try_note_decryption, try_output_recovery_with_ovk};
use zcash_primitives::transaction::Transaction;
use zip32::Scope;

verus! {

/// The Orchard full viewing key of `orchard`.
#[verifier::external_type_specification]
#[verifier::external_body]
pub struct ExFullViewingKey(FullViewingKey);

/// An Orchard incoming viewing key of `orchard`, prepared for trial decryption.
#[verifier::external_type_specification]
#[verifier::external_body]
pub struct ExPreparedIncomingViewingKey(PreparedIncomingViewingKey);

/// An Orchard outgoing viewing key of `orchard`.
#[verifier::external_type_specification]
#[verifier::external_body]
pub struct ExOutgoingViewingKey(OutgoingViewingKey);

/// The Orchard component of a unified key, if it has one.
pub uninterp spec fn orchard_key_of(ufvk: UnifiedFullViewingKey) -> Option<FullViewingKey>;

/// Number of actions in a transaction's Orchard bundle, if it has such a bundle.
pub uninterp spec fn orchard_action_count_of(tx: Transaction) -> Option<nat>;

/// The prepared incoming viewing key of an Orchard key for a scope.
pub uninterp spec fn orchard_ivk_of(
    key: FullViewingKey,
    scope: Scope,
) -> PreparedIncomingViewingKey;

/// The outgoing viewing key of an Orchard key for a scope.
pub uninterp spec fn orchard_ovk_of(key: FullViewingKey, scope: Scope) -> OutgoingViewingKey;

/// Value and memo that trial decryption of the Orchard action at `index` of `tx` under an
/// incoming viewing key yields, if the action's output is addressed to that key.
pub uninterp spec fn orchard_decryption(
    ivk: PreparedIncomingViewingKey,
    tx: Transaction,
    index: nat,
) -> Option<(u64, [u8; 512])>;

/// Value and memo that output recovery of the Orchard action at `index` of `tx` under an
/// outgoing viewing key yields, if the action's output was sent with that key.
pub uninterp spec fn orchard_recovery(
    ovk: OutgoingViewingKey,
    tx: Transaction,
    index: nat,
) -> Option<(u64, [u8; 512])>;

/// `UnifiedFullViewingKey::orchard` hands out the key's Orchard component, which is a
/// part of the key and the same on every call.
pub assume_specification[ UnifiedFullViewingKey::orchard ](ufvk: &UnifiedFullViewingKey) -> (key:
    Option<&FullViewingKey>)
    ensures
        key matches Some(k) ==> orchard_key_of(*ufvk) == Some(*k),
        key is None ==> orchard_key_of(*ufvk) is None,
;

/// Calls `Transaction::orchard_bundle` and `Bundle::actions`, and counts the actions.
///
/// Trusted: the actions are a part of the transaction, so their number is the same on
/// every call.
#[verifier::external_body]
fn orchard_action_count(tx: &Transaction) -> (count: Option<usize>)
    ensures
        count matches Some(n) ==> orchard_action_count_of(*tx) == Some(n as nat),
        count is None ==> orchard_action_count_of(*tx) is None,
{
    tx.orchard_bundle().map(|bundle| bundle.actions().len())
}

/// Calls `FullViewingKey::to_ivk` and `PreparedIncomingViewingKey::new`.
///
/// Trusted: the prepared key depends on the full viewing key and the scope alone.
#[verifier::external_body]
fn orchard_ivk(key: &FullViewingKey, scope: Scope) -> (ivk: PreparedIncomingViewingKey)
    ensures
        ivk == orchard_ivk_of(*key, scope),
{
    PreparedIncomingViewingKey::new(&key.to_ivk(scope))
}

/// Calls `FullViewingKey::to_ovk`.
///
/// Trusted: the key depends on the full viewing key and the scope alone.
#[verifier::external_body]
fn orchard_ovk(key: &FullViewingKey, scope: Scope) -> (ovk: OutgoingViewingKey)
    ensures
        ovk == orchard_ovk_of(*key, scope),
{
    key.to_ovk(scope)
}

/// Calls `zcash_note_encryption::try_note_decryption` on the action at `index` of the
/// transaction's Orchard bundle, in the domain that `OrchardDomain::for_action` builds for
/// that action, and keeps the note's value and the memo. Transactions without an Orchard
/// bundle and indices beyond its actions are left out, as picking the action gives up on
/// them.
///
/// Trusted: the outcome depends on the key and the action alone.
#[verifier::external_body]
fn orchard_try_decryption(
    ivk: &PreparedIncomingViewingKey,
    tx: &Transaction,
    index: usize,
) -> (opened: Option<(u64, [u8; 512])>)
    requires
        orchard_action_count_of(*tx) matches Some(n) && index < n,
    ensures
        opened == orchard_decryption(*ivk, *tx, index as nat),
{
    let action = &tx.orchard_bundle().unwrap().actions()[index];
    try_note_decryption(&OrchardDomain::for_action(action), ivk, action).map(
        |(note, _, memo)| (note.value().inner(), memo),
    )
}

/// Calls `zcash_note_encryption::try_output_recovery_with_ovk` on the action at `index`
/// of the transaction's Orchard bundle, in the domain that `OrchardDomain::for_action`
/// builds for that action, with the action's own value commitment and outgoing
/// ciphertext, and keeps the note's value and the memo. Transactions without an Orchard
/// bundle and indices beyond its actions are left out, as picking the action gives up on
/// them.
///
/// Trusted: the outcome depends on the key and the action alone.
#[verifier::external_body]
fn orchard_try_recovery(
    ovk: &OutgoingViewingKey,
    tx: &Transaction,
    index: usize,
) -> (opened: Option<(u64, [u8; 512])>)
    requires
        orchard_action_count_of(*tx) matches Some(n) && index < n,
    ensures
        opened == orchard_recovery(*ovk, *tx, index as nat),
{
    let action = &tx.orchard_bundle().unwrap().actions()[index];
    try_output_recovery_with_ovk(
        &OrchardDomain::for_action(action),
        ovk,
        action,
        action.cv_net(),
        &action.encrypted_note().out_ciphertext,
    ).map(|(note, _, memo)| (note.value().inner(), memo))
}

/// What each strategy recovers from each of the `count` Orchard actions of `tx` under
/// the given keys.
pub open spec fn orchard_model(
    ivk_external: PreparedIncomingViewingKey,
    ivk_internal: PreparedIncomingViewingKey,
    ovk: OutgoingViewingKey,
    tx: Transaction,
    count: nat,
) -> PoolModel {
    PoolModel {
        protocol: ShieldedProtocol::Orchard,
        len: count,
        recovered: |strategy: Strategy, index: int|
            as_recovered(
                match strategy {
                    Strategy::ExternalIncoming => orchard_decryption(
                        ivk_external,
                        tx,
                        index as nat,
                    ),
                    Strategy::InternalIncoming => orchard_decryption(
                        ivk_internal,
                        tx,
                        index as nat,
                    ),
                    Strategy::OutgoingRecovery => orchard_recovery(ovk, tx, index as nat),
                },
            ),
    }
}

/// The Orchard pool as `ufvk` sees it in `tx`, or `None` when the key has no Orchard
/// component or the transaction no Orchard bundle.
pub open spec fn orchard_pool_of(ufvk: UnifiedFullViewingKey, tx: Transaction) -> Option<
    PoolModel,
> {
    match (orchard_key_of(ufvk), orchard_action_count_of(tx)) {
        (Some(key), Some(count)) => Some(
            orchard_model(
                orchard_ivk_of(key, Scope::External),
                orchard_ivk_of(key, Scope::Internal),
                orchard_ovk_of(key, Scope::External),
                tx,
                count,
            ),
        ),
        _ => None,
    }
}

/// The Orchard notes of `tx` that `ufvk` opens, in bundle order.
pub open spec fn orchard_notes(height: u32, ufvk: UnifiedFullViewingKey, tx: Transaction) -> Seq<
    NoteView,
> {
    match orchard_pool_of(ufvk, tx) {
        Some(pool) => pool_notes(pool, txid_of(tx)@, height),
        None => Seq::empty(),
    }
}

/// The actions of an Orchard bundle with the keys to try on them.
pub struct OrchardPool<'a> {
    ivk_external: PreparedIncomingViewingKey,
    ivk_internal: PreparedIncomingViewingKey,
    ovk: OutgoingViewingKey,
    tx: &'a Transaction,
    count: usize,
}

impl<'a> OrchardPool<'a> {
    /// The pool holds as many actions as the transaction's Orchard bundle.
    #[verifier::type_invariant]
    spec fn wf(&self) -> bool {
        orchard_action_count_of(*self.tx) == Some(self.count as nat)
    }

    /// Derives the keys of both scopes from `ufvk`, once for all actions of `tx`.
    pub fn prepare(ufvk: &UnifiedFullViewingKey, tx: &'a Transaction) -> (pool: Option<
        OrchardPool<'a>,
    >)
        ensures
            match pool {
                Some(p) => orchard_pool_of(*ufvk, *tx) == Some(p.model()),
                None => orchard_pool_of(*ufvk, *tx) is None,
            },
    {
        let key = match ufvk.orchard() {
            Some(key) => key,
            None => {
                return None;
            },
        };
        let count = match orchard_action_count(tx) {
            Some(count) => count,
            None => {
                return None;
            },
        };
        Some(
            OrchardPool {
                ivk_external: orchard_ivk(key, Scope::External),
                ivk_internal: orchard_ivk(key, Scope::Internal),
                ovk: orchard_ovk(key, Scope::External),
                tx,
                count,
            },
        )
    }
}

impl<'a> ShieldedPool for OrchardPool<'a> {
    closed spec fn model(&self) -> PoolModel {
        orchard_model(self.ivk_external, self.ivk_internal, self.ovk, *self.tx, self.count as nat)
    }

    fn protocol_tag(&self) -> (protocol: ShieldedProtocol) {
        ShieldedProtocol::Orchard
    }

    fn output_count(&self) -> (count: usize) {
        self.count
    }

    fn attempt(&self, strategy: Strategy, index: usize) -> (found: Option<Recovered>) {
        proof {
            use_type_invariant(self);
        }
        let opened = match strategy {
            Strategy::ExternalIncoming => orchard_try_decryption(
                &self.ivk_external,
                self.tx,
                index,
            ),
            Strategy::InternalIncoming => orchard_try_decryption(
                &self.ivk_internal,
                self.tx,
                index,
            ),
            Strategy::OutgoingRecovery => orchard_try_recovery(&self.ovk, self.tx, index),
        };
        match opened {
            Some((value, memo)) => Some(Recovered { value, memo }),
            None => None,
        }
    }
}

/// Appends to `notes` the Orchard notes of `tx` that `ufvk` opens, in bundle order.
///
/// Appends nothing when the key has no Orchard component or the transaction no Orchard
/// bundle.
pub fn decrypt_orchard_actions(
    height: u32,
    ufvk: &UnifiedFullViewingKey,
    tx: &Transaction,
    notes: &mut Vec<DecryptedNote>,
)
    ensures
        final(notes).deep_view() == old(notes).deep_view() + orchard_notes(height, *ufvk, *tx),
{
    if let Some(pool) = OrchardPool::prepare(ufvk, tx) {
        let txid = transaction_id(tx);
        scan_pool(&pool, &txid, height, notes);
    }
}

} // verus!
