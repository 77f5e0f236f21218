//! The pool scanner: one procedure that walks a pool's outputs in bundle order, tries the
//! recovery strategies in their fixed order on each, and keeps the first success.

use crate::model::{DecryptedNote, NoteView, ShieldedProtocol, TransferType, MEMO_LEN};
use vstd::prelude::*;
use zcash_protocol::memo::MemoBytes;

verus! {

/// The error `zcash_protocol` reports for a memo that is too long.
#[verifier::external_type_specification]
#[verifier::external_body]
pub struct ExMemoError(zcash_protocol::memo::Error);

/// What one successful recovery attempt yields: the note's value and its memo.
#[derive(Debug, Clone, Copy, PartialEq, Eq)]
pub struct Recovered {
    pub value: u64,
    pub memo: [u8; 512],
}

/// The ways a wallet can open an output, in the order in which they are tried.
#[derive(Debug, Clone, Copy, PartialEq, Eq, Structural)]
pub enum Strategy {
    /// Decryption under the incoming viewing key of the external scope.
    ExternalIncoming,
    /// Decryption under the incoming viewing key of the internal scope.
    InternalIncoming,
    /// Recovery under the outgoing viewing key.
    OutgoingRecovery,
}

impl Strategy {
    /// Position of the strategy in the order of trial.
    pub open spec fn rank(self) -> nat {
        match self {
            Strategy::ExternalIncoming => 0,
            Strategy::InternalIncoming => 1,
            Strategy::OutgoingRecovery => 2,
        }
    }

    /// The relationship a note has to the wallet when this strategy opened it.
    pub open spec fn classification(self) -> TransferType {
        match self {
            Strategy::ExternalIncoming => TransferType::Incoming,
            Strategy::InternalIncoming => TransferType::Internal,
            Strategy::OutgoingRecovery => TransferType::Outgoing,
        }
    }

    /// The strategy tried after this one, if any.
    pub open spec fn successor(self) -> Option<Strategy> {
        match self {
            Strategy::ExternalIncoming => Some(Strategy::InternalIncoming),
            Strategy::InternalIncoming => Some(Strategy::OutgoingRecovery),
            Strategy::OutgoingRecovery => None,
        }
    }

    /// The strategy tried first.
    pub fn first() -> (strategy: Strategy)
        ensures
            strategy.rank() == 0,
    {
        Strategy::ExternalIncoming
    }

    /// The strategy tried after this one has failed, or `None` after the last.
    pub fn next(self) -> (following: Option<Strategy>)
        ensures
            following == self.successor(),
            following matches Some(s) ==> s.rank() == self.rank() + 1,
            following is None ==> self.rank() == 2,
    {
        match self {
            Strategy::ExternalIncoming => Some(Strategy::InternalIncoming),
            Strategy::InternalIncoming => Some(Strategy::OutgoingRecovery),
            Strategy::OutgoingRecovery => None,
        }
    }

    /// The relationship a note has to the wallet when this strategy opened it.
    pub fn transfer_type(self) -> (tag: TransferType)
        ensures
            tag == self.classification(),
    {
        match self {
            Strategy::ExternalIncoming => TransferType::Incoming,
            Strategy::InternalIncoming => TransferType::Internal,
            Strategy::OutgoingRecovery => TransferType::Outgoing,
        }
    }
}

/// Value and memo as the scanner carries them.
pub open spec fn as_recovered(opened: Option<(u64, [u8; 512])>) -> Option<Recovered> {
    match opened {
        Some((value, memo)) => Some(Recovered { value, memo }),
        None => None,
    }
}

/// What scanning reads of a pool: which pool it is, how many outputs its bundle has, and
/// what each strategy recovers from each output.
pub struct PoolModel {
    pub protocol: ShieldedProtocol,
    pub len: nat,
    pub recovered: spec_fn(Strategy, int) -> Option<Recovered>,
}

/// A pool's outputs together with the keys to try on them.
///
/// `model` says what each strategy yields on each output; `attempt` computes it.
pub trait ShieldedPool {
    /// What scanning reads of this pool.
    spec fn model(&self) -> PoolModel;

    /// The pool the outputs belong to.
    fn protocol_tag(&self) -> (protocol: ShieldedProtocol)
        ensures
            protocol == self.model().protocol,
    ;

    /// Number of outputs in the bundle.
    fn output_count(&self) -> (count: usize)
        ensures
            count == self.model().len,
    ;

    /// Tries one strategy on the output at `index`.
    fn attempt(&self, strategy: Strategy, index: usize) -> (found: Option<Recovered>)
        requires
            index < self.model().len,
        ensures
            found == (self.model().recovered)(strategy, index as int),
    ;
}

/// The first strategy, in order of trial, that opens the output at `index`, with what it
/// recovers; `None` when no strategy opens it.
pub open spec fn first_match(pool: PoolModel, index: int) -> Option<(Strategy, Recovered)> {
    if let Some(r) = (pool.recovered)(Strategy::ExternalIncoming, index) {
        Some((Strategy::ExternalIncoming, r))
    } else if let Some(r) = (pool.recovered)(Strategy::InternalIncoming, index) {
        Some((Strategy::InternalIncoming, r))
    } else if let Some(r) = (pool.recovered)(Strategy::OutgoingRecovery, index) {
        Some((Strategy::OutgoingRecovery, r))
    } else {
        None
    }
}

/// The record that stands for a successful recovery.
pub open spec fn packaged(
    txid: Seq<u8>,
    index: nat,
    height: u32,
    protocol: ShieldedProtocol,
    strategy: Strategy,
    recovered: Recovered,
) -> NoteView {
    NoteView {
        txid,
        index,
        value: recovered.value,
        memo: recovered.memo@,
        protocol,
        transfer_type: strategy.classification(),
        height,
    }
}

/// The note that the output at `index` gives rise to, if the wallet can open it.
pub open spec fn note_at(pool: PoolModel, txid: Seq<u8>, height: u32, index: int) -> Option<
    NoteView,
> {
    match first_match(pool, index) {
        Some((strategy, recovered)) => Some(
            packaged(txid, index as nat, height, pool.protocol, strategy, recovered),
        ),
        None => None,
    }
}

/// The notes of the first `upto` outputs, in bundle order.
pub open spec fn scanned(pool: PoolModel, txid: Seq<u8>, height: u32, upto: nat) -> Seq<NoteView>
    decreases upto,
{
    if upto == 0 {
        Seq::empty()
    } else {
        let before = scanned(pool, txid, height, (upto - 1) as nat);
        match note_at(pool, txid, height, upto - 1) {
            Some(note) => before.push(note),
            None => before,
        }
    }
}

/// The notes of the whole pool, in bundle order.
pub open spec fn pool_notes(pool: PoolModel, txid: Seq<u8>, height: u32) -> Seq<NoteView> {
    scanned(pool, txid, height, pool.len)
}

/// Every note of a scan stems from one output of the scanned prefix: its index is that
/// output's position and it is the note of that output. The notes stand in the order of
/// their outputs, so no output is reported twice.
pub proof fn lemma_scanned_by_index(pool: PoolModel, txid: Seq<u8>, height: u32, upto: nat)
    ensures
        scanned(pool, txid, height, upto).len() <= upto,
        forall|k: int|
            0 <= k < scanned(pool, txid, height, upto).len() ==> {
                let note = #[trigger] scanned(pool, txid, height, upto)[k];
                &&& note.index < upto
                &&& note_at(pool, txid, height, note.index as int) == Some(note)
            },
        forall|j: int, k: int|
            0 <= j < k < scanned(pool, txid, height, upto).len() ==> (#[trigger] scanned(
                pool,
                txid,
                height,
                upto,
            )[j]).index < (#[trigger] scanned(pool, txid, height, upto)[k]).index,
    decreases upto,
{
    if upto > 0 {
        lemma_scanned_by_index(pool, txid, height, (upto - 1) as nat);
    }
}

/// Every output of the scanned prefix that some strategy opens is reported.
pub proof fn lemma_scanned_complete(
    pool: PoolModel,
    txid: Seq<u8>,
    height: u32,
    upto: nat,
    index: int,
)
    requires
        0 <= index < upto,
        note_at(pool, txid, height, index) is Some,
    ensures
        scanned(pool, txid, height, upto).contains(note_at(pool, txid, height, index)->0),
    decreases upto,
{
    let before = scanned(pool, txid, height, (upto - 1) as nat);
    let all = scanned(pool, txid, height, upto);
    if index == upto - 1 {
        assert(all[all.len() - 1] == note_at(pool, txid, height, index)->0);
    } else {
        lemma_scanned_complete(pool, txid, height, (upto - 1) as nat, index);
        let note = note_at(pool, txid, height, index)->0;
        let k = choose|k: int| 0 <= k < before.len() && before[k] == note;
        assert(all[k] == before[k]);
    }
}

/// A scan of outputs that no strategy opens reports nothing.
pub proof fn lemma_scanned_nothing(pool: PoolModel, txid: Seq<u8>, height: u32, upto: nat)
    requires
        forall|strategy: Strategy, index: int|
            0 <= index < upto ==> (#[trigger] (pool.recovered)(strategy, index)) is None,
    ensures
        scanned(pool, txid, height, upto) == Seq::<NoteView>::empty(),
    decreases upto,
{
    if upto > 0 {
        lemma_scanned_nothing(pool, txid, height, (upto - 1) as nat);
    }
}

/// The notes with the transaction's identifier left out.
pub open spec fn without_txid(notes: Seq<NoteView>) -> Seq<NoteView> {
    notes.map_values(
        |note: NoteView|
            NoteView {
                txid: Seq::empty(),
                index: note.index,
                value: note.value,
                memo: note.memo,
                protocol: note.protocol,
                transfer_type: note.transfer_type,
                height: note.height,
            },
    )
}

/// A scan depends on the pool only through its protocol and what the strategies recover
/// from its outputs, and on the transaction only through its identifier, which goes into
/// every note unchanged.
pub proof fn lemma_scanned_alike(
    first: PoolModel,
    second: PoolModel,
    first_txid: Seq<u8>,
    second_txid: Seq<u8>,
    height: u32,
    upto: nat,
)
    requires
        first.protocol == second.protocol,
        forall|strategy: Strategy, index: int|
            0 <= index < upto ==> #[trigger] (first.recovered)(strategy, index)
                == (second.recovered)(strategy, index),
    ensures
        without_txid(scanned(first, first_txid, height, upto)) == without_txid(
            scanned(second, second_txid, height, upto),
        ),
    decreases upto,
{
    let ours = scanned(first, first_txid, height, upto);
    let theirs = scanned(second, second_txid, height, upto);
    if upto > 0 {
        let last = upto - 1;
        let ours_before = scanned(first, first_txid, height, last as nat);
        let theirs_before = scanned(second, second_txid, height, last as nat);
        lemma_scanned_alike(first, second, first_txid, second_txid, height, last as nat);
        assert(without_txid(ours_before).len() == without_txid(theirs_before).len());
        assert forall|k: int| 0 <= k < ours_before.len() implies without_txid(ours)[k]
            == without_txid(theirs)[k] by {
            assert(without_txid(ours_before)[k] == without_txid(theirs_before)[k]);
        }
    }
}

/// The classification of a note names the first strategy that opened its output: every
/// strategy tried before it failed on that output.
pub proof fn lemma_first_match_is_first(pool: PoolModel, index: int)
    ensures
        match first_match(pool, index) {
            Some((strategy, recovered)) => {
                &&& (pool.recovered)(strategy, index) == Some(recovered)
                &&& forall|earlier: Strategy|
                    earlier.rank() < strategy.rank() ==> (#[trigger] (pool.recovered)(
                        earlier,
                        index,
                    )) is None
            },
            None => forall|strategy: Strategy|
                (#[trigger] (pool.recovered)(strategy, index)) is None,
        },
{
}

/// A memo as `MemoBytes::from_bytes` stores it: the given bytes, then zeros up to `MEMO_LEN`.
pub open spec fn padded_memo(bytes: Seq<u8>) -> Seq<u8> {
    bytes + Seq::new((MEMO_LEN - bytes.len()) as nat, |i: int| 0u8)
}

/// Calls `MemoBytes::from_bytes` and hands out the stored array as a vector.
///
/// Trusted: a slice of at most `MEMO_LEN` bytes is accepted and stored padded with zeros; a
/// longer one is refused.
#[verifier::external_body]
fn memo_bytes(bytes: &[u8]) -> (stored: Result<Vec<u8>, zcash_protocol::memo::Error>)
    ensures
        bytes@.len() <= MEMO_LEN ==> stored is Ok && stored->Ok_0@ == padded_memo(bytes@),
        bytes@.len() > MEMO_LEN ==> stored is Err,
{
    MemoBytes::from_bytes(bytes).map(|memo| memo.into_bytes().to_vec())
}

/// Packages a successful recovery with the transaction's identifier, the output's
/// position, the pool and the height into the record handed to callers.
pub fn package(
    txid: &[u8; 32],
    index: usize,
    height: u32,
    protocol: ShieldedProtocol,
    strategy: Strategy,
    recovered: &Recovered,
) -> (note: DecryptedNote)
    ensures
        note@ == packaged(txid@, index as nat, height, protocol, strategy, *recovered),
        note@.wf(),
{
    // A recovered memo has the plaintext's fixed length, so it is never refused.
    let memo = memo_bytes(recovered.memo.as_slice()).expect(
        "memo byte length is enforced by decryption",
    );
    DecryptedNote {
        txid: *txid,
        index,
        value: recovered.value,
        memo,
        protocol,
        transfer_type: strategy.transfer_type(),
        height,
    }
}

/// Tries the strategies in order on the output at `index` and stops at the first that
/// opens it.
pub fn scan_output<P: ShieldedPool>(pool: &P, index: usize) -> (found: Option<
    (Strategy, Recovered),
>)
    requires
        index < pool.model().len,
    ensures
        found == first_match(pool.model(), index as int),
{
    let mut strategy = Strategy::first();
    loop
        invariant
            index < pool.model().len,
            strategy.rank() >= 1 ==> (pool.model().recovered)(
                Strategy::ExternalIncoming,
                index as int,
            ) is None,
            strategy.rank() >= 2 ==> (pool.model().recovered)(
                Strategy::InternalIncoming,
                index as int,
            ) is None,
        decreases 3 - strategy.rank(),
    {
        match pool.attempt(strategy, index) {
            Some(recovered) => {
                return Some((strategy, recovered));
            },
            None => match strategy.next() {
                Some(following) => {
                    strategy = following;
                },
                None => {
                    return None;
                },
            },
        }
    }
}

/// Scans every output of `pool` in bundle order and appends one note for each output
/// the wallet can open.
pub fn scan_pool<P: ShieldedPool>(
    pool: &P,
    txid: &[u8; 32],
    height: u32,
    notes: &mut Vec<DecryptedNote>,
)
    ensures
        final(notes).deep_view() == old(notes).deep_view() + pool_notes(
            pool.model(),
            txid@,
            height,
        ),
{
    let count = pool.output_count();
    let protocol = pool.protocol_tag();
    let ghost before = notes.deep_view();
    let mut index: usize = 0;
    while index < count
        invariant
            index <= count,
            count == pool.model().len,
            protocol == pool.model().protocol,
            notes.deep_view() == before + scanned(pool.model(), txid@, height, index as nat),
        decreases count - index,
    {
        let ghost so_far = notes.deep_view();
        if let Some((strategy, recovered)) = scan_output(pool, index) {
            let note = package(txid, index, height, protocol, strategy, &recovered);
            notes.push(note);
            assert(notes.deep_view() =~= so_far.push(note@));
        }
        index += 1;
    }
}

} // verus!
