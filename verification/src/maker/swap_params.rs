//! The terms a maker accepts a swap under.

use crate::error::MakerError;
use crate::chain::PublicKey;
use crate::maker::handlers::{
    accepted_state, offered, MakerConfig, StateModel, MIN_CONTRACT_REACTION_TIME,
};
use crate::maker::legacy_funding::{
    funding_sum, funding_terms_verdict, law_accepted_funding_terms,
};
use crate::maker::taproot_verification::{contract_data_verdict, lock_time_of};
use crate::primitives::InstructionModel;
use crate::protocol::common_messages::{FidelityProof, ProtocolVersion, SwapDetails};
use crate::protocol::legacy_messages::ProofOfFunding;
use crate::protocol::taproot_messages::TaprootContractData;
use vstd::prelude::*;

verus! {

/// Whether a protocol version is among those that a maker supports.
pub fn supports(versions: &Vec<ProtocolVersion>, version: ProtocolVersion) -> (r: bool)
    ensures
        r == versions@.contains(version),
{
    let mut i: usize = 0;
    while i < versions.len()
        invariant
            i <= versions.len(),
            forall|j: int| 0 <= j < i ==> versions@[j] != version,
        decreases versions.len() - i,
    {
        if versions[i] == version {
            assert(versions@[i as int] == version);
            return true;
        }
        i += 1;
    }
    false
}

/// The smaller of a sum and the largest number.
pub open spec fn saturated(sum: int) -> u32 {
    if sum > u32::MAX {
        u32::MAX
    } else {
        sum as u32
    }
}

/// What a swap's amount, protocol and split are rejected for. `liquidity` is
/// that of the wallet where it is known.
pub open spec fn terms_verdict(
    config: MakerConfig,
    details: SwapDetails,
    liquidity: Option<u64>,
    max_splits: usize,
) -> Result<(), MakerError> {
    if details.amount < config.min_swap_amount {
        Err(MakerError::General("Swap amount below minimum"))
    } else if details.amount > config.max_swap_amount {
        Err(MakerError::General("Swap amount above maximum"))
    } else if !config.supported_protocols@.contains(details.protocol_version) {
        Err(MakerError::General("Protocol version not supported"))
    } else if liquidity is Some && liquidity->0 < details.amount {
        Err(MakerError::General("Not enough liquidity for this swap amount"))
    } else if details.outgoing_tx_count == Some(0u32) {
        Err(MakerError::General("Requested outgoing_tx_count is zero"))
    } else if details.outgoing_tx_count is Some && details.outgoing_tx_count->0 > max_splits {
        Err(MakerError::General("Requested outgoing_tx_count exceeds maximum splits"))
    } else {
        Ok(())
    }
}

/// How many blocks the funds of a swap stay locked, or what its timelock is
/// rejected for. A legacy timelock counts blocks; a taproot one is a height,
/// and the offset that the taker announces counts the blocks.
pub open spec fn timelock_verdict(
    details: SwapDetails,
    height: Result<u32, MakerError>,
    refund_locktime_step: u16,
) -> Result<u16, MakerError> {
    match details.protocol_version {
        ProtocolVersion::Legacy => if details.timelock < MIN_CONTRACT_REACTION_TIME {
            Err(MakerError::General("Legacy timelock is below minimum reaction time"))
        } else if details.timelock > u16::MAX {
            Err(MakerError::General("Swap timelock out of range"))
        } else {
            Ok(details.timelock as u16)
        },
        ProtocolVersion::Taproot => match height {
            Err(e) => Err(e),
            Ok(height) => if saturated(details.timelock + refund_locktime_step) < saturated(
                height + MIN_CONTRACT_REACTION_TIME,
            ) {
                Err(
                    MakerError::General(
                        "Taproot timelock leaves too little contract reaction time",
                    ),
                )
            } else if details.refund_locktime_offset < MIN_CONTRACT_REACTION_TIME {
                Err(
                    MakerError::General(
                        "Taproot refund locktime offset is below minimum reaction time",
                    ),
                )
            } else {
                Ok(details.refund_locktime_offset)
            },
        },
    }
}

/// What proposed swap details are rejected for, or how many blocks the funds
/// stay locked.
pub open spec fn swap_verdict(
    config: MakerConfig,
    details: SwapDetails,
    liquidity: Option<u64>,
    max_splits: usize,
    height: Result<u32, MakerError>,
    refund_locktime_step: u16,
) -> Result<u16, MakerError> {
    match terms_verdict(config, details, liquidity, max_splits) {
        Err(e) => Err(e),
        Ok(_) => timelock_verdict(details, height, refund_locktime_step),
    }
}

/// Checks a swap's amount, protocol and split.
fn check_terms(
    config: &MakerConfig,
    details: &SwapDetails,
    liquidity: Option<u64>,
    max_splits: usize,
) -> (r: Result<(), MakerError>)
    ensures
        r == terms_verdict(*config, *details, liquidity, max_splits),
{
    if details.amount < config.min_swap_amount {
        return Err(MakerError::General("Swap amount below minimum"));
    }
    if details.amount > config.max_swap_amount {
        return Err(MakerError::General("Swap amount above maximum"));
    }
    if !supports(&config.supported_protocols, details.protocol_version) {
        return Err(MakerError::General("Protocol version not supported"));
    }
    if let Some(available) = liquidity {
        if available < details.amount {
            return Err(MakerError::General("Not enough liquidity for this swap amount"));
        }
    }
    if let Some(requested) = details.outgoing_tx_count {
        if requested == 0 {
            return Err(MakerError::General("Requested outgoing_tx_count is zero"));
        }
        if requested as usize > max_splits {
            return Err(MakerError::General("Requested outgoing_tx_count exceeds maximum splits"));
        }
    }
    Ok(())
}

/// Checks proposed swap details and works out how many blocks the funds stay
/// locked. `liquidity` is that of the wallet where it could be read, and
/// `height` the tip of the chain, which only taproot swaps need.
pub fn validate_swap_parameters(
    config: &MakerConfig,
    details: &SwapDetails,
    liquidity: Option<u64>,
    max_splits: usize,
    height: Result<u32, MakerError>,
    refund_locktime_step: u16,
) -> (r: Result<u16, MakerError>)
    ensures
        r == swap_verdict(*config, *details, liquidity, max_splits, height, refund_locktime_step),
{
    match check_terms(config, details, liquidity, max_splits) {
        Err(e) => {
            return Err(e);
        },
        Ok(_) => {},
    }
    let locked_blocks: u32 = match details.protocol_version {
        ProtocolVersion::Legacy => {
            if details.timelock < MIN_CONTRACT_REACTION_TIME as u32 {
                return Err(MakerError::General("Legacy timelock is below minimum reaction time"));
            }
            details.timelock
        },
        ProtocolVersion::Taproot => {
            let current_height: u32 = match height {
                Err(e) => {
                    return Err(e);
                },
                Ok(height) => height,
            };
            if details.timelock.saturating_add(refund_locktime_step as u32)
                < current_height.saturating_add(MIN_CONTRACT_REACTION_TIME as u32) {
                return Err(
                    MakerError::General(
                        "Taproot timelock leaves too little contract reaction time",
                    ),
                );
            }
            if details.refund_locktime_offset < MIN_CONTRACT_REACTION_TIME {
                return Err(
                    MakerError::General(
                        "Taproot refund locktime offset is below minimum reaction time",
                    ),
                );
            }
            details.refund_locktime_offset as u32
        },
    };
    if locked_blocks == 0 || locked_blocks > u16::MAX as u32 {
        return Err(MakerError::General("Swap timelock out of range"));
    }
    Ok(locked_blocks as u16)
}

/// A swap that is accepted leaves the maker time to react, stays within the
/// offered amounts and is covered by what is known of the wallet.
pub proof fn law_accepted_swap(
    config: MakerConfig,
    details: SwapDetails,
    liquidity: Option<u64>,
    max_splits: usize,
    height: Result<u32, MakerError>,
    refund_locktime_step: u16,
)
    ensures
        swap_verdict(
            config,
            details,
            liquidity,
            max_splits,
            height,
            refund_locktime_step,
        ) is Ok <==> {
            &&& config.min_swap_amount <= details.amount <= config.max_swap_amount
            &&& config.supported_protocols@.contains(details.protocol_version)
            &&& liquidity is Some ==> details.amount <= liquidity->0
            &&& details.outgoing_tx_count is Some ==> 0 < details.outgoing_tx_count->0
                <= max_splits
            &&& match details.protocol_version {
                ProtocolVersion::Legacy => MIN_CONTRACT_REACTION_TIME <= details.timelock
                    <= u16::MAX,
                ProtocolVersion::Taproot => height is Ok
                    && details.refund_locktime_offset >= MIN_CONTRACT_REACTION_TIME && saturated(
                    details.timelock + refund_locktime_step,
                ) >= saturated(height->Ok_0 + MIN_CONTRACT_REACTION_TIME),
            }
        },
{
}

/// The number of blocks that a swap is priced for is at least the reaction
/// time.
pub proof fn law_locked_blocks_leave_reaction_time(
    config: MakerConfig,
    details: SwapDetails,
    liquidity: Option<u64>,
    max_splits: usize,
    height: Result<u32, MakerError>,
    refund_locktime_step: u16,
)
    ensures
        swap_verdict(
            config,
            details,
            liquidity,
            max_splits,
            height,
            refund_locktime_step,
        ) matches Ok(blocks) ==> blocks >= MIN_CONTRACT_REACTION_TIME,
{
}

/// The blocks that a swap is priced for are those for which its funds stay
/// locked: a legacy timelock itself, or the offset that a taproot taker
/// announces.
pub proof fn law_priced_for_the_locked_blocks(
    config: MakerConfig,
    details: SwapDetails,
    liquidity: Option<u64>,
    max_splits: usize,
    height: Result<u32, MakerError>,
    refund_locktime_step: u16,
)
    requires
        swap_verdict(
            config,
            details,
            liquidity,
            max_splits,
            height,
            refund_locktime_step,
        ) is Ok,
    ensures
        ({
            let blocks = swap_verdict(
                config,
                details,
                liquidity,
                max_splits,
                height,
                refund_locktime_step,
            )->Ok_0;
            &&& details.protocol_version == ProtocolVersion::Legacy ==> blocks == details.timelock
            &&& details.protocol_version == ProtocolVersion::Taproot ==> blocks
                == details.refund_locktime_offset
            &&& blocks >= 10
        }),
{
}

/// A taproot swap is accepted only where the taker's contract, whose timelock is
/// the maker's plus the step, outlives the tip by ten blocks at least, and a
/// height that leaves them is no reason to reject it.
pub proof fn law_taproot_height_leaves_reaction_time(
    config: MakerConfig,
    details: SwapDetails,
    liquidity: Option<u64>,
    max_splits: usize,
    height: u32,
    refund_locktime_step: u16,
)
    requires
        details.protocol_version == ProtocolVersion::Taproot,
        details.timelock + refund_locktime_step <= u32::MAX,
        height + 10 <= u32::MAX,
        details.refund_locktime_offset >= 10,
        terms_verdict(config, details, liquidity, max_splits) is Ok,
    ensures
        swap_verdict(
            config,
            details,
            liquidity,
            max_splits,
            Ok(height),
            refund_locktime_step,
        ) is Ok <==> details.timelock + refund_locktime_step >= height + 10,
{
}

/// A legacy swap is accepted, as far as its timelock goes, exactly where that is
/// a number of blocks from ten on; the height of the chain does not matter.
pub proof fn law_legacy_timelock_is_a_number_of_blocks(
    config: MakerConfig,
    details: SwapDetails,
    liquidity: Option<u64>,
    max_splits: usize,
    height: Result<u32, MakerError>,
    refund_locktime_step: u16,
)
    requires
        details.protocol_version == ProtocolVersion::Legacy,
        terms_verdict(config, details, liquidity, max_splits) is Ok,
    ensures
        swap_verdict(
            config,
            details,
            liquidity,
            max_splits,
            height,
            refund_locktime_step,
        ) is Ok <==> 10 <= details.timelock <= 65_535,
{
}

/// What an offer promises is kept: an amount within its sizes is not rejected
/// for the amount, and one outside is.
pub proof fn law_offered_sizes_are_taken(
    config: MakerConfig,
    details: SwapDetails,
    tweakable_point: PublicKey,
    fidelity: FidelityProof,
    max_splits: usize,
)
    requires
        config.supported_protocols@.contains(details.protocol_version),
        details.outgoing_tx_count is None,
    ensures
        ({
            let offer = offered(config, tweakable_point, fidelity);
            terms_verdict(config, details, None, max_splits) is Ok <==> offer.min_size
                <= details.amount <= offer.max_size
        }),
{
}

/// The state of a connection after it validated and took over swap details: the
/// terms are the taker's own, and the blocks are those that the maker prices.
pub proof fn law_validated_details_are_taken_over(
    config: MakerConfig,
    details: SwapDetails,
    liquidity: Option<u64>,
    max_splits: usize,
    height: Result<u32, MakerError>,
    refund_locktime_step: u16,
    state: StateModel,
)
    requires
        swap_verdict(
            config,
            details,
            liquidity,
            max_splits,
            height,
            refund_locktime_step,
        ) is Ok,
    ensures
        ({
            let blocks = swap_verdict(
                config,
                details,
                liquidity,
                max_splits,
                height,
                refund_locktime_step,
            )->Ok_0;
            let after = accepted_state(state, details, blocks);
            &&& after.timelock == details.timelock
            &&& config.min_swap_amount <= after.swap_amount <= config.max_swap_amount
            &&& config.supported_protocols@.contains(after.protocol)
            &&& liquidity is Some ==> after.swap_amount <= liquidity->0
            &&& after.protocol == ProtocolVersion::Legacy ==> after.refund_locktime_offset
                == details.timelock
            &&& after.protocol == ProtocolVersion::Taproot ==> after.refund_locktime_offset
                == details.refund_locktime_offset
        }),
{
}

/// A proof of funding is held against the details that were accepted: it must
/// name the proposed swap and lock time, come in the proposed number of
/// contracts and hold no more than the proposed amount.
pub proof fn law_funding_meets_the_accepted_details(
    state: StateModel,
    details: SwapDetails,
    locked_blocks: u16,
    pof: ProofOfFunding,
)
    requires
        funding_terms_verdict(accepted_state(state, details, locked_blocks), pof) is Ok,
    ensures
        pof.id@ == details.id@,
        pof.refund_locktime == details.timelock,
        pof.confirmed_funding_txes@.len() == details.tx_count,
        funding_sum(pof.confirmed_funding_txes@, pof.confirmed_funding_txes@.len() as int)
            <= details.amount,
{
    law_accepted_funding_terms(accepted_state(state, details, locked_blocks), pof);
}

/// Taproot contract data is held against the details that were accepted: its
/// timelock must be the proposed height plus the step.
pub proof fn law_contract_data_meets_the_accepted_details(
    state: StateModel,
    details: SwapDetails,
    locked_blocks: u16,
    data: TaprootContractData,
    refund_locktime_step: u16,
    hashlock: Seq<InstructionModel>,
    timelock: Seq<InstructionModel>,
    commitment: Option<([u8; 32], [u8; 32])>,
)
    requires
        contract_data_verdict(
            data,
            accepted_state(state, details, locked_blocks).timelock,
            refund_locktime_step,
            hashlock,
            timelock,
            commitment,
        ) is Ok,
    ensures
        lock_time_of(timelock[0]) == Ok::<u64, MakerError>(
            (details.timelock + refund_locktime_step) as u64,
        ),
{
}

} // verus!
