//! Parsing of consensus-serialized transactions.

use crate::consensus::{branch_at, branch_for_height};
use crate::model::{explain, explains, CoreError};
use vstd::prelude::*;
use zcash_primitives::transaction::Transaction;
use zcash_protocol::consensus::BranchId;
use zcash_protocol::consensus::Network as ConsensusNetwork;

verus! {

/// A parsed transaction of `zcash_primitives`.
#[verifier::external_type_specification]
#[verifier::external_body]
pub struct ExTransaction(Transaction);

/// The error a reader reports.
#[verifier::external_type_specification]
#[verifier::external_body]
pub struct ExIoError(std::io::Error);

/// What `Transaction::read` makes of a byte string under a consensus branch.
pub uninterp spec fn transaction_reading(bytes: Seq<u8>, branch: BranchId) -> Result<
    Transaction,
    std::io::Error,
>;

/// The identifier of a parsed transaction.
pub uninterp spec fn txid_of(tx: Transaction) -> [u8; 32];

/// How the message of every parse failure begins.
pub open spec fn parse_failure_prefix() -> Seq<char> {
    "failed to parse transaction: "@
}

/// Whether `parsed` is what parsing `bytes` under `branch` owes: the transaction that
/// reading yields, or else a `MalformedTransaction` whose message names the reader's
/// error.
pub open spec fn parsed_as(
    parsed: Result<Transaction, CoreError>,
    bytes: Seq<u8>,
    branch: BranchId,
) -> bool {
    match transaction_reading(bytes, branch) {
        Ok(tx) => parsed == Ok::<Transaction, CoreError>(tx),
        Err(error) => parsed matches Err(CoreError::MalformedTransaction(message)) && explains(
            message@,
            parse_failure_prefix(),
            error,
        ),
    }
}

/// Calls `Transaction::read` on an in-memory reader over `bytes`.
///
/// Trusted: the outcome depends on the bytes and the branch alone, and nothing of at most
/// four bytes is read as a transaction, since the version header takes four bytes and
/// every format goes on to read more.
#[verifier::external_body]
fn read_transaction(bytes: &[u8], branch: BranchId) -> (read: Result<Transaction, std::io::Error>)
    ensures
        read == transaction_reading(bytes@, branch),
        bytes@.len() <= 4 ==> read is Err,
{
    Transaction::read(std::io::Cursor::new(bytes), branch)
}

/// Calls `Transaction::txid` and hands out the identifier's bytes.
#[verifier::external_body]
pub(crate) fn transaction_id(tx: &Transaction) -> (id: [u8; 32])
    ensures
        id == txid_of(*tx),
{
    *tx.txid().as_ref()
}

/// Reads a transaction under `branch`, reporting a failure as `MalformedTransaction`.
fn parse_under(bytes: &[u8], branch: BranchId) -> (parsed: Result<Transaction, CoreError>)
    ensures
        parsed_as(parsed, bytes@, branch),
        bytes@.len() <= 4 ==> parsed is Err,
{
    match read_transaction(bytes, branch) {
        Ok(tx) => Ok(tx),
        Err(error) => Err(
            CoreError::MalformedTransaction(explain("failed to parse transaction: ", &error)),
        ),
    }
}

/// Parses raw transaction bytes under the NU5 consensus branch, whatever height the
/// transaction was mined at.
///
/// Use this only where the era is known: bytes of another era are reported as
/// malformed, not as a mismatch of versions.
pub fn parse_transaction(bytes: &[u8]) -> (parsed: Result<Transaction, CoreError>)
    ensures
        parsed_as(parsed, bytes@, BranchId::Nu5),
        bytes@.len() <= 4 ==> parsed matches Err(CoreError::MalformedTransaction(_)),
{
    parse_under(bytes, BranchId::Nu5)
}

/// Parses raw transaction bytes under the consensus branch in force at `height`.
pub fn parse_transaction_at_height(
    params: &ConsensusNetwork,
    height: u32,
    bytes: &[u8],
) -> (parsed: Result<Transaction, CoreError>)
    ensures
        parsed_as(parsed, bytes@, branch_at(*params, height)),
        bytes@.len() <= 4 ==> parsed matches Err(CoreError::MalformedTransaction(_)),
{
    parse_under(bytes, branch_for_height(params, height))
}

} // verus!
