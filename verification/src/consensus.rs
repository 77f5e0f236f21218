//! Consensus parameters: which network a request runs on and which rules a height is under.

use crate::model::Network;
use sapling_crypto::note_encryption::Zip212Enforcement;
use vstd::prelude::*;
use zcash_protocol::consensus::BlockHeight;
use zcash_protocol::consensus::BranchId;
use zcash_protocol::consensus::Network as ConsensusNetwork;

verus! {

/// The consensus parameter set of `zcash_protocol`: an enum of the two public networks.
#[verifier::external_type_specification]
pub struct ExConsensusNetwork(ConsensusNetwork);

/// The consensus branch identifiers of `zcash_protocol`, one per rule set.
#[verifier::external_type_specification]
pub struct ExBranchId(BranchId);

/// The three ZIP 212 enforcement policies of `sapling_crypto`.
#[verifier::external_type_specification]
pub struct ExZip212Enforcement(Zip212Enforcement);

/// Number of blocks after Canopy's activation during which both note plaintext
/// formats are accepted.
pub const ZIP212_GRACE_PERIOD: u32 = 32_256;

/// The parameter set that stands for `network`.
pub open spec fn params_of(network: Network) -> ConsensusNetwork {
    match network {
        Network::Mainnet => ConsensusNetwork::MainNetwork,
        Network::Testnet => ConsensusNetwork::TestNetwork,
    }
}

/// Height at which the Canopy upgrade activated on each network.
pub open spec fn canopy_activation(params: ConsensusNetwork) -> u32 {
    match params {
        ConsensusNetwork::MainNetwork => 1_046_400,
        ConsensusNetwork::TestNetwork => 1_028_500,
    }
}

/// The ZIP 212 policy in force at `height`: off before Canopy, a grace period of
/// `ZIP212_GRACE_PERIOD` blocks from its activation on, and strict enforcement after that.
pub open spec fn zip212_policy(params: ConsensusNetwork, height: u32) -> Zip212Enforcement {
    if height < canopy_activation(params) {
        Zip212Enforcement::Off
    } else if height < canopy_activation(params) + ZIP212_GRACE_PERIOD {
        Zip212Enforcement::GracePeriod
    } else {
        Zip212Enforcement::On
    }
}

/// The consensus branch whose rules are in force at `height` on the given network, as
/// `BranchId::for_height` determines it from the activation heights.
pub uninterp spec fn branch_at(params: ConsensusNetwork, height: u32) -> BranchId;

/// Returns consensus parameters for the requested network.
pub fn params_for(network: Network) -> (params: ConsensusNetwork)
    ensures
        params == params_of(network),
{
    match network {
        Network::Mainnet => ConsensusNetwork::MainNetwork,
        Network::Testnet => ConsensusNetwork::TestNetwork,
    }
}

/// Calls `zcash_primitives::transaction::components::sapling::zip212_enforcement`.
///
/// Trusted: that function answers `Off` while Canopy is not active at `height`,
/// `GracePeriod` below Canopy's activation height plus the grace period, and `On` from
/// there on, with Canopy activating at 1,046,400 on mainnet and 1,028,500 on testnet.
#[verifier::external_body]
pub(crate) fn zip212_at(params: &ConsensusNetwork, height: u32) -> (policy: Zip212Enforcement)
    ensures
        policy == zip212_policy(*params, height),
{
    zcash_primitives::transaction::components::sapling::zip212_enforcement(
        params,
        BlockHeight::from(height),
    )
}

/// Calls `BranchId::for_height`.
///
/// Trusted: the branch depends on the parameters and the height alone.
#[verifier::external_body]
pub(crate) fn branch_for_height(params: &ConsensusNetwork, height: u32) -> (branch: BranchId)
    ensures
        branch == branch_at(*params, height),
{
    BranchId::for_height(params, BlockHeight::from(height))
}

} // verus!
