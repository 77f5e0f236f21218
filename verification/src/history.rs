//! Decryption of a batch of transactions for one viewing key: the engine as a front
//! end calls it, with the network and the key still in their textual form.

use crate::consensus::{branch_at, params_for, params_of};
use crate::decrypt::{decrypt_transaction_with_ufvk, decrypted};
use crate::encoding::{base64_decode, base64_decoding};
use crate::keys::{parse_viewing_key, ufvk_decoding};
use crate::model::{explain, explains, CoreError, DecryptedNote, Network, NoteView};
use crate::transaction::{parse_failure_prefix, parse_transaction_at_height, transaction_reading};
use vstd::prelude::*;
use zcash_keys::keys::UnifiedFullViewingKey;
use zcash_protocol::consensus::Network as ConsensusNetwork;

verus! {

/// One transaction of a batch: its raw bytes in base64 and the height it was mined at.
#[derive(Debug, Clone, PartialEq, Eq)]
pub struct TxInput {
    pub raw_tx: String,
    pub height: u32,
}

/// Mathematical content of a [`TxInput`].
pub struct TxInputView {
    pub raw_tx: Seq<char>,
    pub height: u32,
}

impl View for TxInput {
    type V = TxInputView;

    open spec fn view(&self) -> TxInputView {
        TxInputView { raw_tx: self.raw_tx@, height: self.height }
    }
}

impl DeepView for TxInput {
    type V = TxInputView;

    open spec fn deep_view(&self) -> TxInputView {
        self@
    }
}

/// A batch that failed: the position of the first input that was rejected, and why.
#[derive(Debug, Clone, PartialEq, Eq)]
pub struct BatchError {
    pub index: usize,
    pub error: CoreError,
}

/// The ASCII lower-case form of a character: the letters `A` to `Z` become `a` to `z`,
/// every other character stays.
pub open spec fn ascii_lower(c: char) -> char {
    if 'A' <= c && c <= 'Z' {
        ((c as u8) + 32) as char
    } else {
        c
    }
}

/// The ASCII lower-case form of a string.
pub open spec fn lowercased(text: Seq<char>) -> Seq<char> {
    text.map_values(|c: char| ascii_lower(c))
}

/// `str::to_ascii_lowercase` maps the ASCII letters `A` to `Z` to `a` to `z` and leaves
/// every other character unchanged.
pub assume_specification[ str::to_ascii_lowercase ](text: &str) -> (lower: String)
    ensures
        lower@ == lowercased(text@),
;

/// The network that a selector names, whatever its case; `None` for any other selector.
pub open spec fn network_named(selector: Seq<char>) -> Option<Network> {
    if lowercased(selector) == "mainnet"@ {
        Some(Network::Mainnet)
    } else if lowercased(selector) == "testnet"@ {
        Some(Network::Testnet)
    } else {
        None
    }
}

/// The message for a selector that names no supported network.
pub open spec fn unsupported_network(selector: Seq<char>) -> Seq<char> {
    "unsupported network '"@ + lowercased(selector) + "', expected 'mainnet' or 'testnet'"@
}

/// Maps a network selector, in any case, to the network it names.
pub fn map_network(network: &str) -> (mapped: Result<Network, String>)
    ensures
        match network_named(network@) {
            Some(named) => mapped == Ok::<Network, String>(named),
            None => mapped matches Err(message) && message@ == unsupported_network(network@),
        },
{
    let lower = network.to_ascii_lowercase();
    if lower == String::from_str("mainnet") {
        Ok(Network::Mainnet)
    } else if lower == String::from_str("testnet") {
        Ok(Network::Testnet)
    } else {
        let message = String::from_str("unsupported network '").concat(lower.as_str()).concat(
            "', expected 'mainnet' or 'testnet'",
        );
        Err(message)
    }
}

/// How the message for a transaction that is not valid base64 begins.
pub open spec fn decode_failure_prefix() -> Seq<char> {
    "failed to decode transaction: "@
}

/// How the message for a transaction of a batch that does not parse begins.
pub open spec fn batch_parse_failure_prefix() -> Seq<char> {
    "failed to parse tx: "@
}

/// How the message for a rejected viewing key begins.
pub open spec fn key_failure_prefix() -> Seq<char> {
    "invalid viewing key: "@
}

/// Decodes a raw transaction from base64.
pub fn decode_raw_tx(raw: &str) -> (decoded: Result<Vec<u8>, String>)
    ensures
        match base64_decoding(raw@) {
            Ok(bytes) => decoded matches Ok(v) && v@ == bytes,
            Err(cause) => decoded matches Err(message) && explains(
                message@,
                decode_failure_prefix(),
                cause,
            ),
        },
{
    match base64_decode(raw) {
        Ok(bytes) => Ok(bytes),
        Err(error) => Err(explain("failed to decode transaction: ", &error)),
    }
}

/// The notes that one input of a batch contributes, or `None` when its text is not
/// base64 or its bytes do not parse under the branch in force at its height.
pub open spec fn input_notes(
    params: ConsensusNetwork,
    ufvk: UnifiedFullViewingKey,
    input: TxInputView,
) -> Option<Seq<NoteView>> {
    match base64_decoding(input.raw_tx) {
        Ok(bytes) => match transaction_reading(bytes, branch_at(params, input.height)) {
            Ok(tx) => Some(decrypted(params, input.height, ufvk, tx)),
            Err(_) => None,
        },
        Err(_) => None,
    }
}

/// The notes of the first `upto` inputs, one transaction's notes after the previous
/// transaction's.
pub open spec fn batch_notes(
    params: ConsensusNetwork,
    ufvk: UnifiedFullViewingKey,
    inputs: Seq<TxInputView>,
    upto: nat,
) -> Seq<NoteView>
    decreases upto,
{
    if upto == 0 {
        Seq::empty()
    } else {
        let before = batch_notes(params, ufvk, inputs, (upto - 1) as nat);
        match input_notes(params, ufvk, inputs[upto - 1]) {
            Some(notes) => before + notes,
            None => before,
        }
    }
}

/// Whether every one of the first `upto` inputs decodes and parses.
pub open spec fn all_accepted(
    params: ConsensusNetwork,
    ufvk: UnifiedFullViewingKey,
    inputs: Seq<TxInputView>,
    upto: nat,
) -> bool {
    forall|i: int| 0 <= i < upto ==> (#[trigger] input_notes(params, ufvk, inputs[i])) is Some
}

/// Whether `error` is the rejection owed for `input`: a `MalformedTransaction` whose
/// message gives the decoder's reason when the text is not base64, and else the
/// parser's message for the bytes.
pub open spec fn rejects(error: CoreError, params: ConsensusNetwork, input: TxInputView) -> bool {
    &&& error matches CoreError::MalformedTransaction(message)
    &&& match base64_decoding(input.raw_tx) {
        Err(cause) => explains(message@, decode_failure_prefix(), cause),
        Ok(bytes) => match transaction_reading(bytes, branch_at(params, input.height)) {
            Err(cause) => batch_parse_failure_prefix().is_prefix_of(message@) && explains(
                message@.skip(batch_parse_failure_prefix().len() as int),
                parse_failure_prefix(),
                cause,
            ),
            Ok(_) => false,
        },
    }
}

/// Whether `error` is the rejection owed for a batch whose first input that is not
/// accepted stands at `index`.
pub open spec fn rejected_at(
    error: CoreError,
    index: int,
    params: ConsensusNetwork,
    ufvk: UnifiedFullViewingKey,
    inputs: Seq<TxInputView>,
) -> bool {
    &&& 0 <= index < inputs.len()
    &&& all_accepted(params, ufvk, inputs, index as nat)
    &&& input_notes(params, ufvk, inputs[index]) is None
    &&& rejects(error, params, inputs[index])
}

/// Whether `outcome` is what a batch owes: the notes of all inputs when every input is
/// accepted, and else the rejection of the first input that is not.
pub open spec fn batch_outcome(
    outcome: Result<Vec<DecryptedNote>, BatchError>,
    params: ConsensusNetwork,
    ufvk: UnifiedFullViewingKey,
    inputs: Seq<TxInputView>,
) -> bool {
    match outcome {
        Ok(notes) => all_accepted(params, ufvk, inputs, inputs.len()) && notes.deep_view()
            == batch_notes(params, ufvk, inputs, inputs.len()),
        Err(failure) => rejected_at(failure.error, failure.index as int, params, ufvk, inputs),
    }
}

/// Decrypts a batch of transactions in order with one key, one transaction's notes
/// after the previous transaction's.
///
/// A batch fails as a whole: the first input that is not base64, or whose bytes do not
/// parse under the branch in force at its height, is reported with its position, and no
/// notes are returned.
pub fn decrypt_batch(
    params: &ConsensusNetwork,
    ufvk: &UnifiedFullViewingKey,
    txs: &[TxInput],
) -> (outcome: Result<Vec<DecryptedNote>, BatchError>)
    ensures
        batch_outcome(outcome, *params, *ufvk, txs.deep_view()),
{
    let ghost inputs = txs.deep_view();
    let mut notes: Vec<DecryptedNote> = Vec::new();
    let mut index: usize = 0;
    while index < txs.len()
        invariant
            index <= txs.len(),
            inputs == txs.deep_view(),
            all_accepted(*params, *ufvk, inputs, index as nat),
            notes.deep_view() == batch_notes(*params, *ufvk, inputs, index as nat),
        decreases txs.len() - index,
    {
        let input = &txs[index];
        let bytes = match decode_raw_tx(input.raw_tx.as_str()) {
            Ok(bytes) => bytes,
            Err(message) => {
                return Err(BatchError { index, error: CoreError::MalformedTransaction(message) });
            },
        };
        let tx = match parse_transaction_at_height(params, input.height, bytes.as_slice()) {
            Ok(tx) => tx,
            Err(error) => {
                let reason = error.to_string();
                let message = String::from_str("failed to parse tx: ").concat(reason.as_str());
                assert(message@.skip(batch_parse_failure_prefix().len() as int) =~= reason@);
                return Err(BatchError { index, error: CoreError::MalformedTransaction(message) });
            },
        };
        let mut found = decrypt_transaction_with_ufvk(params, input.height, ufvk, &tx);
        notes.append(&mut found);
        index += 1;
    }
    Ok(notes)
}

/// Whether `outcome` is what a request owes for a network selector, a viewing key
/// string and a batch: the network is checked first, then the key, then the batch.
pub open spec fn history_outcome(
    outcome: Result<Vec<DecryptedNote>, CoreError>,
    viewing_key: Seq<char>,
    inputs: Seq<TxInputView>,
    network: Seq<char>,
) -> bool {
    match network_named(network) {
        None => outcome matches Err(CoreError::UnsupportedNetwork(message)) && message@
            == unsupported_network(network),
        Some(named) => match ufvk_decoding(params_of(named), viewing_key) {
            Err(cause) => outcome matches Err(CoreError::InvalidEncoding(message)) && explains(
                message@,
                key_failure_prefix(),
                cause,
            ),
            Ok(ufvk) => match outcome {
                Ok(notes) => all_accepted(params_of(named), ufvk, inputs, inputs.len())
                    && notes.deep_view() == batch_notes(
                    params_of(named),
                    ufvk,
                    inputs,
                    inputs.len(),
                ),
                Err(error) => exists|index: int|
                    #[trigger] rejected_at(error, index, params_of(named), ufvk, inputs),
            },
        },
    }
}

/// Decrypts a batch of transactions with a unified full viewing key given as text, on
/// the network that `network` names.
///
/// The selector is checked first, then the key, then each transaction in order; the
/// first rejection ends the request.
pub fn decrypt_history(viewing_key_str: &str, txs: &[TxInput], network: &str) -> (outcome: Result<
    Vec<DecryptedNote>,
    CoreError,
>)
    ensures
        history_outcome(outcome, viewing_key_str@, txs.deep_view(), network@),
{
    let named = match map_network(network) {
        Ok(named) => named,
        Err(message) => {
            return Err(CoreError::UnsupportedNetwork(message));
        },
    };
    let ufvk = match parse_viewing_key(viewing_key_str, named) {
        Ok(ufvk) => ufvk,
        Err(error) => {
            let reason = error.to_string();
            let message = String::from_str("invalid viewing key: ").concat(reason.as_str());
            assert(message@.skip(key_failure_prefix().len() as int) =~= reason@);
            return Err(CoreError::InvalidEncoding(message));
        },
    };
    let params = params_for(named);
    match decrypt_batch(&params, &ufvk, txs) {
        Ok(notes) => Ok(notes),
        Err(failure) => {
            Err(failure.error)
        },
    }
}

} // verus!
