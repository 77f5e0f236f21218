//! Parsing of unified full viewing keys.

use crate::consensus::{params_for, params_of};
use crate::model::{displayed, CoreError, Network};
use vstd::prelude::*;
use zcash_keys::encoding::UnifiedDecodingError;
use zcash_keys::keys::UnifiedFullViewingKey;
use zcash_protocol::consensus::Network as ConsensusNetwork;
use zip32::Scope;

verus! {

/// A unified full viewing key of `zcash_keys`: per-pool viewing keys, each optional.
#[verifier::external_type_specification]
#[verifier::external_body]
pub struct ExUnifiedFullViewingKey(UnifiedFullViewingKey);

/// The reason `zcash_keys` gives for refusing a unified encoding.
#[verifier::external_type_specification]
#[verifier::external_body]
pub struct ExUnifiedDecodingError(UnifiedDecodingError);

/// The two key scopes of `zip32`: external, for addresses handed to others, and
/// internal, for change and other wallet-internal outputs.
#[verifier::external_type_specification]
pub struct ExScope(Scope);

/// What `UnifiedFullViewingKey::decode` makes of a string under given parameters.
pub uninterp spec fn ufvk_decoding(params: ConsensusNetwork, encoded: Seq<char>) -> Result<
    UnifiedFullViewingKey,
    UnifiedDecodingError,
>;

/// Calls `UnifiedFullViewingKey::decode`.
///
/// Trusted: the outcome depends on the parameters and the string alone, and a string
/// that decodes for one network is refused for every other, since the network it was
/// encoded for is read from the string and compared with the one asked for.
#[verifier::external_body]
fn decode_ufvk(params: &ConsensusNetwork, encoded: &str) -> (decoded: Result<
    UnifiedFullViewingKey,
    UnifiedDecodingError,
>)
    ensures
        decoded == ufvk_decoding(*params, encoded@),
        decoded is Ok ==> forall|other: ConsensusNetwork|
            other != *params ==> (#[trigger] ufvk_decoding(other, encoded@)) is Err,
{
    UnifiedFullViewingKey::decode(params, encoded)
}

/// Whether `parsed` is what parsing `encoded` for `network` owes: the key that decoding
/// yields, or else an `InvalidEncoding` whose message is the decoder's reason; and a
/// key only where every other network refuses the string.
pub open spec fn key_parsed_as(
    parsed: Result<UnifiedFullViewingKey, CoreError>,
    encoded: Seq<char>,
    network: Network,
) -> bool {
    &&& match ufvk_decoding(params_of(network), encoded) {
        Ok(key) => parsed == Ok::<UnifiedFullViewingKey, CoreError>(key),
        Err(error) => parsed matches Err(CoreError::InvalidEncoding(message)) && displayed(
            error,
            message@,
        ),
    }
    &&& parsed is Ok ==> forall|other: Network|
        other != network ==> (#[trigger] ufvk_decoding(params_of(other), encoded)) is Err
}

/// Parses a unified full viewing key string for the given network.
///
/// Succeeds exactly when the string is a well-formed, checksummed unified viewing key
/// encoded for `network`; every other string is rejected as `InvalidEncoding`, with the
/// decoder's reason as the message. A string accepted for one network is rejected for
/// the other.
pub fn parse_viewing_key(encoded: &str, network: Network) -> (parsed: Result<
    UnifiedFullViewingKey,
    CoreError,
>)
    ensures
        key_parsed_as(parsed, encoded@, network),
{
    let params = params_for(network);
    match decode_ufvk(&params, encoded) {
        Ok(key) => Ok(key),
        Err(error) => Err(CoreError::InvalidEncoding(error.to_string())),
    }
}

/// A key string that parses for one network is rejected as `InvalidEncoding` when
/// another network is asked for, and no key comes out of the rejection.
pub proof fn lemma_other_network_is_rejected(
    encoded: Seq<char>,
    network: Network,
    other: Network,
    accepted: Result<UnifiedFullViewingKey, CoreError>,
    refused: Result<UnifiedFullViewingKey, CoreError>,
)
    requires
        network != other,
        key_parsed_as(accepted, encoded, network),
        key_parsed_as(refused, encoded, other),
        accepted is Ok,
    ensures
        refused matches Err(CoreError::InvalidEncoding(_)),
{
}

} // verus!
