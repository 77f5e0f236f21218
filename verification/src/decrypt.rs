//! The transaction-level driver: one scan per pool, Sapling before Orchard.

use crate::model::{CoreError, DecryptedNote, NoteView, ShieldedProtocol};
use crate::orchard_pool::{
    decrypt_orchard_actions, orchard_action_count_of, orchard_decryption, orchard_notes,
    orchard_pool_of, orchard_recovery,
};
use crate::sapling_pool::{
    decrypt_sapling_outputs, sapling_notes, sapling_outputs_of, sapling_pool_of,
};
use crate::scan::{
    lemma_scanned_alike, lemma_scanned_by_index, lemma_scanned_complete, lemma_scanned_nothing,
    note_at, without_txid, PoolModel, Strategy,
};
use crate::transaction::{parsed_as, txid_of};
use orchard::keys::{OutgoingViewingKey, PreparedIncomingViewingKey};
use vstd::prelude::*;
use zcash_keys::keys::UnifiedFullViewingKey;
use zcash_primitives::transaction::Transaction;
use zcash_protocol::consensus::BranchId;
use zcash_protocol::consensus::Network as ConsensusNetwork;

verus! {

/// The notes of `tx` that `ufvk` opens: those of the Sapling pool in bundle order, then
/// those of the Orchard pool in bundle order.
pub open spec fn decrypted(
    params: ConsensusNetwork,
    height: u32,
    ufvk: UnifiedFullViewingKey,
    tx: Transaction,
) -> Seq<NoteView> {
    sapling_notes(params, height, ufvk, tx) + orchard_notes(height, ufvk, tx)
}

/// Decrypts the Sapling and Orchard outputs of a transaction with a single unified
/// full viewing key.
///
/// Never fails: an output that the key does not open is passed over in silence.
pub fn decrypt_transaction_with_ufvk(
    params: &ConsensusNetwork,
    height: u32,
    ufvk: &UnifiedFullViewingKey,
    tx: &Transaction,
) -> (notes: Vec<DecryptedNote>)
    ensures
        notes.deep_view() == decrypted(*params, height, *ufvk, *tx),
{
    let mut notes: Vec<DecryptedNote> = Vec::new();
    decrypt_sapling_outputs(params, height, ufvk, tx, &mut notes);
    decrypt_orchard_actions(height, ufvk, tx, &mut notes);
    notes
}

/// The pool of `tx` that a note of the given protocol stems from, as `ufvk` sees it.
pub open spec fn pool_of(
    params: ConsensusNetwork,
    height: u32,
    ufvk: UnifiedFullViewingKey,
    tx: Transaction,
    protocol: ShieldedProtocol,
) -> Option<PoolModel> {
    match protocol {
        ShieldedProtocol::Sapling => sapling_pool_of(params, height, ufvk, tx),
        ShieldedProtocol::Orchard => orchard_pool_of(ufvk, tx),
    }
}

/// Parsing the same bytes twice under the same branch and decrypting both transactions
/// with the same parameters, height and key gives the same notes.
pub proof fn lemma_decrypt_deterministic(
    params: ConsensusNetwork,
    height: u32,
    ufvk: UnifiedFullViewingKey,
    bytes: Seq<u8>,
    branch: BranchId,
    first_parse: Result<Transaction, CoreError>,
    second_parse: Result<Transaction, CoreError>,
    first: Seq<NoteView>,
    second: Seq<NoteView>,
)
    requires
        parsed_as(first_parse, bytes, branch),
        parsed_as(second_parse, bytes, branch),
        first_parse matches Ok(tx) && first == decrypted(params, height, ufvk, tx),
        second_parse matches Ok(tx) && second == decrypted(params, height, ufvk, tx),
    ensures
        first_parse == second_parse,
        first == second,
{
}

/// Every note stems from the output at its index in the pool that its protocol names,
/// carries the transaction's identifier and the caller's height, and is well formed.
pub proof fn lemma_note_matches_output(
    params: ConsensusNetwork,
    height: u32,
    ufvk: UnifiedFullViewingKey,
    tx: Transaction,
    k: int,
)
    requires
        0 <= k < decrypted(params, height, ufvk, tx).len(),
    ensures
        ({
            let note = decrypted(params, height, ufvk, tx)[k];
            &&& pool_of(params, height, ufvk, tx, note.protocol) matches Some(pool)
            &&& pool.protocol == note.protocol
            &&& note.index < pool.len
            &&& note_at(pool, txid_of(tx)@, height, note.index as int) == Some(note)
            &&& note.txid == txid_of(tx)@
            &&& note.height == height
            &&& note.wf()
        }),
{
    if k < sapling_notes(params, height, ufvk, tx).len() {
        let pool = sapling_pool_of(params, height, ufvk, tx)->0;
        lemma_scanned_by_index(pool, txid_of(tx)@, height, pool.len);
    } else {
        let pool = orchard_pool_of(ufvk, tx)->0;
        lemma_scanned_by_index(pool, txid_of(tx)@, height, pool.len);
    }
}

/// Every output that some strategy opens is reported with the note it gives rise to.
pub proof fn lemma_opened_output_is_reported(
    params: ConsensusNetwork,
    height: u32,
    ufvk: UnifiedFullViewingKey,
    tx: Transaction,
    protocol: ShieldedProtocol,
    index: int,
)
    requires
        pool_of(params, height, ufvk, tx, protocol) matches Some(pool) && 0 <= index < pool.len
            && note_at(pool, txid_of(tx)@, height, index) is Some,
    ensures
        decrypted(params, height, ufvk, tx).contains(
            note_at(pool_of(params, height, ufvk, tx, protocol)->0, txid_of(tx)@, height, index)->0,
        ),
{
    let pool = pool_of(params, height, ufvk, tx, protocol)->0;
    let note = note_at(pool, txid_of(tx)@, height, index)->0;
    let sapling = sapling_notes(params, height, ufvk, tx);
    let orchard = orchard_notes(height, ufvk, tx);
    lemma_scanned_complete(pool, txid_of(tx)@, height, pool.len, index);
    match protocol {
        ShieldedProtocol::Sapling => {
            let k = choose|k: int| 0 <= k < sapling.len() && sapling[k] == note;
            assert(decrypted(params, height, ufvk, tx)[k] == note);
        },
        ShieldedProtocol::Orchard => {
            let k = choose|k: int| 0 <= k < orchard.len() && orchard[k] == note;
            assert(decrypted(params, height, ufvk, tx)[sapling.len() + k] == note);
        },
    }
}

/// No output is reported twice, so no output ever carries two classifications.
pub proof fn lemma_one_note_per_output(
    params: ConsensusNetwork,
    height: u32,
    ufvk: UnifiedFullViewingKey,
    tx: Transaction,
    j: int,
    k: int,
)
    requires
        0 <= j < k < decrypted(params, height, ufvk, tx).len(),
    ensures
        ({
            let first = decrypted(params, height, ufvk, tx)[j];
            let second = decrypted(params, height, ufvk, tx)[k];
            first.protocol != second.protocol || first.index != second.index
        }),
{
    let sapling = sapling_notes(params, height, ufvk, tx);
    lemma_note_matches_output(params, height, ufvk, tx, j);
    lemma_note_matches_output(params, height, ufvk, tx, k);
    if k < sapling.len() {
        let pool = sapling_pool_of(params, height, ufvk, tx)->0;
        lemma_scanned_by_index(pool, txid_of(tx)@, height, pool.len);
    } else if j >= sapling.len() {
        let pool = orchard_pool_of(ufvk, tx)->0;
        lemma_scanned_by_index(pool, txid_of(tx)@, height, pool.len);
    } else {
        lemma_pool_tags(params, height, ufvk, tx);
    }
}

/// Every note of the Sapling scan is tagged Sapling, and every note of the Orchard scan
/// Orchard.
pub proof fn lemma_pool_tags(
    params: ConsensusNetwork,
    height: u32,
    ufvk: UnifiedFullViewingKey,
    tx: Transaction,
)
    ensures
        forall|k: int|
            0 <= k < sapling_notes(params, height, ufvk, tx).len() ==> (#[trigger] sapling_notes(
                params,
                height,
                ufvk,
                tx,
            )[k]).protocol == ShieldedProtocol::Sapling,
        forall|k: int|
            0 <= k < orchard_notes(height, ufvk, tx).len() ==> (#[trigger] orchard_notes(
                height,
                ufvk,
                tx,
            )[k]).protocol == ShieldedProtocol::Orchard,
{
    if let Some(pool) = sapling_pool_of(params, height, ufvk, tx) {
        lemma_scanned_by_index(pool, txid_of(tx)@, height, pool.len);
    }
    if let Some(pool) = orchard_pool_of(ufvk, tx) {
        lemma_scanned_by_index(pool, txid_of(tx)@, height, pool.len);
    }
}

/// Whether no strategy opens any output of the pool.
pub open spec fn opens_nothing(pool: Option<PoolModel>) -> bool {
    pool matches Some(p) ==> forall|strategy: Strategy, index: int|
        0 <= index < p.len ==> (#[trigger] (p.recovered)(strategy, index)) is None
}

/// A key that opens none of the transaction's outputs, or that lacks a pool's component,
/// or a transaction without shielded bundles, gives the empty sequence.
pub proof fn lemma_absence_is_silent(
    params: ConsensusNetwork,
    height: u32,
    ufvk: UnifiedFullViewingKey,
    tx: Transaction,
)
    requires
        opens_nothing(sapling_pool_of(params, height, ufvk, tx)),
        opens_nothing(orchard_pool_of(ufvk, tx)),
    ensures
        decrypted(params, height, ufvk, tx) == Seq::<NoteView>::empty(),
{
    if let Some(pool) = sapling_pool_of(params, height, ufvk, tx) {
        lemma_scanned_nothing(pool, txid_of(tx)@, height, pool.len);
    }
    if let Some(pool) = orchard_pool_of(ufvk, tx) {
        lemma_scanned_nothing(pool, txid_of(tx)@, height, pool.len);
    }
}

/// A transaction without shielded bundles gives the empty sequence, whatever the key.
pub proof fn lemma_nothing_without_bundles(
    params: ConsensusNetwork,
    height: u32,
    ufvk: UnifiedFullViewingKey,
    tx: Transaction,
)
    requires
        sapling_outputs_of(tx) is None,
        orchard_action_count_of(tx) is None,
    ensures
        decrypted(params, height, ufvk, tx) == Seq::<NoteView>::empty(),
{
    lemma_absence_is_silent(params, height, ufvk, tx);
}

/// The notes of `notes` that belong to `protocol`, in order.
pub open spec fn of_protocol(notes: Seq<NoteView>, protocol: ShieldedProtocol) -> Seq<NoteView> {
    notes.filter(|note: NoteView| note.protocol == protocol)
}

/// Filtering by a protocol keeps a sequence whose notes all carry it, and empties one
/// whose notes all carry the other.
proof fn lemma_filter_by_tag(
    notes: Seq<NoteView>,
    tag: ShieldedProtocol,
    protocol: ShieldedProtocol,
)
    requires
        forall|k: int| 0 <= k < notes.len() ==> (#[trigger] notes[k]).protocol == tag,
    ensures
        of_protocol(notes, protocol) == if tag == protocol {
            notes
        } else {
            Seq::<NoteView>::empty()
        },
    decreases notes.len(),
{
    reveal(Seq::filter);
    if notes.len() > 0 {
        lemma_filter_by_tag(notes.drop_last(), tag, protocol);
    }
}

/// The Sapling notes of a result are the Sapling scan alone, and its Orchard notes the
/// Orchard scan alone: neither pool's notes are mixed with or altered by the other's.
pub proof fn lemma_pools_are_independent(
    params: ConsensusNetwork,
    height: u32,
    ufvk: UnifiedFullViewingKey,
    tx: Transaction,
)
    ensures
        of_protocol(decrypted(params, height, ufvk, tx), ShieldedProtocol::Sapling)
            == sapling_notes(params, height, ufvk, tx),
        of_protocol(decrypted(params, height, ufvk, tx), ShieldedProtocol::Orchard)
            == orchard_notes(height, ufvk, tx),
{
    let sapling = sapling_notes(params, height, ufvk, tx);
    let orchard = orchard_notes(height, ufvk, tx);
    lemma_pool_tags(params, height, ufvk, tx);
    lemma_filter_by_tag(sapling, ShieldedProtocol::Sapling, ShieldedProtocol::Sapling);
    lemma_filter_by_tag(sapling, ShieldedProtocol::Sapling, ShieldedProtocol::Orchard);
    lemma_filter_by_tag(orchard, ShieldedProtocol::Orchard, ShieldedProtocol::Sapling);
    lemma_filter_by_tag(orchard, ShieldedProtocol::Orchard, ShieldedProtocol::Orchard);
    Seq::filter_distributes_over_add(
        sapling,
        orchard,
        |note: NoteView| note.protocol == ShieldedProtocol::Sapling,
    );
    Seq::filter_distributes_over_add(
        sapling,
        orchard,
        |note: NoteView| note.protocol == ShieldedProtocol::Orchard,
    );
}

/// Two transactions with the same Sapling outputs give the same Sapling notes but for
/// the identifier, whatever else the transactions hold.
pub proof fn lemma_sapling_notes_ignore_the_rest(
    params: ConsensusNetwork,
    height: u32,
    ufvk: UnifiedFullViewingKey,
    tx: Transaction,
    other: Transaction,
)
    requires
        sapling_outputs_of(tx) == sapling_outputs_of(other),
    ensures
        without_txid(sapling_notes(params, height, ufvk, tx)) == without_txid(
            sapling_notes(params, height, ufvk, other),
        ),
{
    if let Some(pool) = sapling_pool_of(params, height, ufvk, tx) {
        lemma_scanned_alike(pool, pool, txid_of(tx)@, txid_of(other)@, height, pool.len);
    }
}

/// Two transactions whose Orchard bundles have as many actions, from which every key
/// recovers the same, give the same Orchard notes but for the identifier, whatever else
/// the transactions hold.
pub proof fn lemma_orchard_notes_ignore_the_rest(
    height: u32,
    ufvk: UnifiedFullViewingKey,
    tx: Transaction,
    other: Transaction,
)
    requires
        orchard_action_count_of(tx) == orchard_action_count_of(other),
        forall|ivk: PreparedIncomingViewingKey, index: nat| #[trigger]
            orchard_decryption(ivk, tx, index) == orchard_decryption(ivk, other, index),
        forall|ovk: OutgoingViewingKey, index: nat| #[trigger]
            orchard_recovery(ovk, tx, index) == orchard_recovery(ovk, other, index),
    ensures
        without_txid(orchard_notes(height, ufvk, tx)) == without_txid(
            orchard_notes(height, ufvk, other),
        ),
{
    if let Some(pool) = orchard_pool_of(ufvk, tx) {
        let twin = orchard_pool_of(ufvk, other)->0;
        lemma_scanned_alike(pool, twin, txid_of(tx)@, txid_of(other)@, height, pool.len);
    }
}

} // verus!
