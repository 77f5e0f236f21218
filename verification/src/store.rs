//! An in-memory store of raw transactions and its range query by height.

use crate::encoding::{
    base64_encode, base64_encoding, blake2b_empty, blake2b_of_nothing, hex_encode, hex_of,
};
use std::sync::Arc;
use vstd::prelude::*;
use vstd::string::StringSliceAdditionalSpecFns;

verus! {

/// Number of records a range query returns when the caller names no limit.
pub const DEFAULT_LIMIT: usize = 500;

/// Largest number of records a single range query may return.
pub const MAX_LIMIT: usize = 5_000;

/// One stored transaction: its height, its raw bytes in base64, and its identifier in hex.
#[derive(Debug, Clone, PartialEq, Eq)]
pub struct TxRecord {
    pub height: u32,
    pub raw_tx: String,
    pub txid: String,
}

/// Mathematical content of a [`TxRecord`].
pub struct TxRecordView {
    pub height: u32,
    pub raw_tx: Seq<char>,
    pub txid: Seq<char>,
}

impl View for TxRecord {
    type V = TxRecordView;

    open spec fn view(&self) -> TxRecordView {
        TxRecordView { height: self.height, raw_tx: self.raw_tx@, txid: self.txid@ }
    }
}

impl DeepView for TxRecord {
    type V = TxRecordView;

    open spec fn deep_view(&self) -> TxRecordView {
        self@
    }
}

/// Whether `height` lies between the optional bounds, both inclusive.
pub open spec fn in_range(height: u32, from: Option<u32>, to: Option<u32>) -> bool {
    &&& from matches Some(start) ==> start <= height
    &&& to matches Some(end) ==> height <= end
}

/// The records whose height lies in range, in stored order.
pub open spec fn matching(records: Seq<TxRecordView>, from: Option<u32>, to: Option<u32>) -> Seq<
    TxRecordView,
> {
    records.filter(|r: TxRecordView| in_range(r.height, from, to))
}

/// What a range query answers: the first `limit` matching records, in stored order.
pub open spec fn listed(
    records: Seq<TxRecordView>,
    from: Option<u32>,
    to: Option<u32>,
    limit: nat,
) -> Seq<TxRecordView> {
    let found = matching(records, from, to);
    if limit < found.len() {
        found.take(limit as int)
    } else {
        found
    }
}

/// The limit a query runs with: the requested one, or the default, capped at the maximum.
pub open spec fn effective_limit_of(requested: Option<usize>) -> usize {
    let wanted = match requested {
        Some(n) => n,
        None => DEFAULT_LIMIT,
    };
    if wanted < MAX_LIMIT {
        wanted
    } else {
        MAX_LIMIT
    }
}

/// Matching a prefix extended by one record keeps the earlier matches and appends the
/// new record exactly when it is in range.
proof fn lemma_matching_step(
    records: Seq<TxRecordView>,
    from: Option<u32>,
    to: Option<u32>,
    i: int,
)
    requires
        0 <= i < records.len(),
    ensures
        matching(records.take(i + 1), from, to) == if in_range(records[i].height, from, to) {
            matching(records.take(i), from, to).push(records[i])
        } else {
            matching(records.take(i), from, to)
        },
{
    reveal(Seq::filter);
    assert(records.take(i + 1).drop_last() =~= records.take(i));
}

/// The matches of a prefix are a prefix of the matches of the whole.
proof fn lemma_matching_prefix(
    records: Seq<TxRecordView>,
    from: Option<u32>,
    to: Option<u32>,
    i: int,
)
    requires
        0 <= i <= records.len(),
    ensures
        matching(records.take(i), from, to).len() <= matching(records, from, to).len(),
        matching(records, from, to).take(matching(records.take(i), from, to).len() as int)
            == matching(records.take(i), from, to),
{
    let pred = |r: TxRecordView| in_range(r.height, from, to);
    assert(records =~= records.take(i) + records.skip(i));
    Seq::filter_distributes_over_add(records.take(i), records.skip(i), pred);
}

/// A shared, immutable list of transaction records.
#[derive(Clone)]
pub struct InMemoryTxStore {
    records: Arc<Vec<TxRecord>>,
}

impl View for InMemoryTxStore {
    type V = Seq<TxRecordView>;

    closed spec fn view(&self) -> Seq<TxRecordView> {
        self.records.deep_view()
    }
}

impl Default for InMemoryTxStore {
    fn default() -> (store: InMemoryTxStore)
        ensures
            store@ == Seq::<TxRecordView>::empty(),
    {
        let records: Vec<TxRecord> = Vec::new();
        InMemoryTxStore { records: Arc::new(records) }
    }
}

impl InMemoryTxStore {
    /// A store holding `records` in the given order.
    pub fn new(records: Vec<TxRecord>) -> (store: InMemoryTxStore)
        ensures
            store@ == records.deep_view(),
    {
        InMemoryTxStore { records: Arc::new(records) }
    }

    /// The first `limit` records whose height lies within the optional inclusive bounds,
    /// in stored order.
    pub fn list_range(&self, from: Option<u32>, to: Option<u32>, limit: usize) -> (found: Vec<
        TxRecord,
    >)
        ensures
            found.deep_view() == listed(self@, from, to, limit as nat),
    {
        let records: &Vec<TxRecord> = &self.records;
        let ghost all = records.deep_view();
        let mut found: Vec<TxRecord> = Vec::new();
        let mut i: usize = 0;
        while i < records.len() && found.len() < limit
            invariant
                i <= records.len(),
                all == records.deep_view(),
                found.len() <= limit,
                found.deep_view() == matching(all.take(i as int), from, to),
            decreases records.len() - i,
        {
            let record = &records[i];
            let above = match from {
                Some(start) => start <= record.height,
                None => true,
            };
            let below = match to {
                Some(end) => record.height <= end,
                None => true,
            };
            proof {
                lemma_matching_step(all, from, to, i as int);
            }
            if above && below {
                found.push(
                    TxRecord {
                        height: record.height,
                        raw_tx: record.raw_tx.clone(),
                        txid: record.txid.clone(),
                    },
                );
            }
            i += 1;
        }
        proof {
            lemma_matching_prefix(all, from, to, i as int);
            if i == records.len() {
                assert(all.take(i as int) =~= all);
            }
        }
        found
    }
}

/// The limit a query runs with: the requested one, or `DEFAULT_LIMIT`, capped at `MAX_LIMIT`.
pub fn effective_limit(requested: Option<usize>) -> (limit: usize)
    ensures
        limit == effective_limit_of(requested),
{
    let wanted: usize = match requested {
        Some(n) => n,
        None => DEFAULT_LIMIT,
    };
    if wanted < MAX_LIMIT {
        wanted
    } else {
        MAX_LIMIT
    }
}

/// Answers a range query against `store`, with the default and the cap applied to `limit`.
pub fn list_txs(
    store: &InMemoryTxStore,
    from_height: Option<u32>,
    to_height: Option<u32>,
    limit: Option<usize>,
) -> (found: Vec<TxRecord>)
    ensures
        found.deep_view() == listed(
            store@,
            from_height,
            to_height,
            effective_limit_of(limit) as nat,
        ),
{
    store.list_range(from_height, to_height, effective_limit(limit))
}

/// The bytes that stand in for a raw transaction in the sample record.
pub open spec fn sample_payload() -> Seq<u8> {
    "placeholder-zcash-tx".spec_bytes()
}

/// The records a store is started with before any transaction has been ingested: one
/// sample record at height zero, whose identifier is the 32-byte BLAKE2b digest of nothing.
pub fn bootstrap_sample_data() -> (records: Vec<TxRecord>)
    ensures
        records.deep_view() == seq![
            TxRecordView {
                height: 0,
                raw_tx: base64_encoding(sample_payload()),
                txid: hex_of(blake2b_of_nothing(32)),
            },
        ],
{
    let dummy_tx = "placeholder-zcash-tx";
    proof {
        reveal_strlit("placeholder-zcash-tx");
        vstd::string::is_ascii_spec_bytes(dummy_tx);
    }
    let digest = blake2b_empty(32);
    let record = TxRecord {
        height: 0,
        raw_tx: base64_encode(dummy_tx.as_bytes()),
        txid: hex_encode(digest.as_slice()),
    };
    let mut records: Vec<TxRecord> = Vec::new();
    records.push(record);
    records
}

} // verus!
