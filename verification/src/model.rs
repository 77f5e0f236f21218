//! The records the engine hands out, and the errors it reports.

use crate::encoding::{hex_encode, hex_of};
use vstd::prelude::*;
use vstd::std_specs::convert::FromSpecImpl;
use vstd::string::to_string_from_display_ensures;

verus! {

/// Length in bytes of a transaction identifier.
pub const TXID_LEN: usize = 32;

/// Length in bytes of the memo that travels with every shielded note.
pub const MEMO_LEN: usize = 512;

/// The networks a viewing key can be encoded for.
#[derive(Debug, Clone, Copy, PartialEq, Eq, Structural)]
pub enum Network {
    Mainnet,
    Testnet,
}

/// Shielded pool a note belongs to.
#[derive(Debug, Clone, Copy, PartialEq, Eq, Structural)]
pub enum ShieldedProtocol {
    Sapling,
    Orchard,
}

/// How the wallet relates to a recovered note.
#[derive(Debug, Clone, Copy, PartialEq, Eq, Structural)]
pub enum TransferType {
    Incoming,
    Outgoing,
    Internal,
}

/// A recovered shielded note with the metadata a wallet front end needs.
#[derive(Debug, Clone, PartialEq, Eq)]
pub struct DecryptedNote {
    /// Identifier of the owning transaction, in the byte order the chain hashes it in.
    pub txid: [u8; 32],
    /// Position of the output within its pool's bundle.
    pub index: usize,
    /// Note value in the chain's smallest unit.
    pub value: u64,
    /// The raw memo, `MEMO_LEN` bytes.
    pub memo: Vec<u8>,
    pub protocol: ShieldedProtocol,
    pub transfer_type: TransferType,
    /// Block height the caller supplied for the transaction.
    pub height: u32,
}

/// Mathematical content of a [`DecryptedNote`].
pub struct NoteView {
    pub txid: Seq<u8>,
    pub index: nat,
    pub value: u64,
    pub memo: Seq<u8>,
    pub protocol: ShieldedProtocol,
    pub transfer_type: TransferType,
    pub height: u32,
}

impl View for DecryptedNote {
    type V = NoteView;

    open spec fn view(&self) -> NoteView {
        NoteView {
            txid: self.txid@,
            index: self.index as nat,
            value: self.value,
            memo: self.memo@,
            protocol: self.protocol,
            transfer_type: self.transfer_type,
            height: self.height,
        }
    }
}

impl DeepView for DecryptedNote {
    type V = NoteView;

    open spec fn deep_view(&self) -> NoteView {
        self@
    }
}

impl DecryptedNote {
    /// The transaction's identifier as explorers and nodes show it: the hexadecimal
    /// text of its bytes in reverse order.
    pub fn txid_hex(&self) -> (text: String)
        ensures
            text@ == hex_of(self.txid@.reverse()),
    {
        let mut reversed: Vec<u8> = Vec::new();
        let mut taken: usize = 0;
        while taken < 32
            invariant
                taken <= 32,
                reversed@.len() == taken,
                forall|i: int| 0 <= i < taken ==> reversed@[i] == self.txid@[31 - i],
            decreases 32 - taken,
        {
            reversed.push(self.txid[31 - taken]);
            taken += 1;
        }
        assert(reversed@ =~= self.txid@.reverse());
        hex_encode(reversed.as_slice())
    }
}

impl NoteView {
    /// A note is well formed when its identifier and memo have their fixed lengths.
    pub open spec fn wf(self) -> bool {
        self.txid.len() == TXID_LEN && self.memo.len() == MEMO_LEN
    }
}

/// Whether `text` is what displaying `value` gives.
pub open spec fn displayed<T: core::fmt::Display>(value: T, text: Seq<char>) -> bool {
    exists|rendered: String|
        #[trigger] to_string_from_display_ensures::<T>(&value, rendered) && rendered@ == text
}

/// Whether `message` is `prefix` followed by what displaying `cause` gives.
pub open spec fn explains<T: core::fmt::Display>(
    message: Seq<char>,
    prefix: Seq<char>,
    cause: T,
) -> bool {
    prefix.is_prefix_of(message) && displayed(cause, message.skip(prefix.len() as int))
}

/// The text of `cause` behind `prefix`.
pub fn explain<T: core::fmt::Display>(prefix: &str, cause: &T) -> (message: String)
    ensures
        explains(message@, prefix@, *cause),
{
    let reason = cause.to_string();
    let message = String::from_str(prefix).concat(reason.as_str());
    assert(message@.skip(prefix@.len() as int) =~= reason@);
    message
}

/// Why an input was rejected.
#[derive(Debug, Clone, PartialEq, Eq)]
pub enum CoreError {
    /// A rejection described only by its text.
    Message(String),
    /// The viewing key string is malformed, fails its checksum, or is for another network.
    InvalidEncoding(String),
    /// The transaction bytes do not parse under the selected protocol version.
    MalformedTransaction(String),
    /// The network selector names neither mainnet nor testnet.
    UnsupportedNetwork(String),
}

impl CoreError {
    /// The human-readable reason carried by the error.
    pub open spec fn message(&self) -> Seq<char> {
        match self {
            CoreError::Message(m) => m@,
            CoreError::InvalidEncoding(m) => m@,
            CoreError::MalformedTransaction(m) => m@,
            CoreError::UnsupportedNetwork(m) => m@,
        }
    }

    /// Renders the error as the text shown to a user.
    pub fn to_string(&self) -> (text: String)
        ensures
            text@ == self.message(),
    {
        match self {
            CoreError::Message(m) => m.clone(),
            CoreError::InvalidEncoding(m) => m.clone(),
            CoreError::MalformedTransaction(m) => m.clone(),
            CoreError::UnsupportedNetwork(m) => m.clone(),
        }
    }
}

impl From<String> for CoreError {
    fn from(value: String) -> (error: CoreError) {
        CoreError::Message(value)
    }
}

impl FromSpecImpl<String> for CoreError {
    open spec fn obeys_from_spec() -> bool {
        true
    }

    open spec fn from_spec(value: String) -> CoreError {
        CoreError::Message(value)
    }
}

} // verus!
