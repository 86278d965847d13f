use vstd::prelude::*;
use crate::eth_address::EthAddress;
use crate::transfer::{
    BridgeDataSource, TokenTransfer, TokenTransferData, TokenTransferStatus,
};
use crate::transfer::{TokenTransferDataView, TokenTransferView};
use crate::u256::U256;

verus! {

/// A deposit into the bridge contract, to be paid out on the other chain.
#[derive(Clone, Debug, PartialEq, Eq)]
pub struct TokensDeposited {
    pub source_chain_id: u8,
    pub nonce: u64,
    pub destination_chain_id: u8,
    pub token_id: u8,
    pub sui_adjusted_amount: u64,
    pub sender_address: EthAddress,
    pub recipient_address: Vec<u8>,
}

/// A payment out of the bridge contract, for a deposit on the other chain.
#[derive(Clone, Debug, PartialEq, Eq)]
pub struct TokensClaimed {
    pub source_chain_id: u8,
    pub nonce: u64,
    pub sender_address: Vec<u8>,
}

/// The events of the bridge contract itself.
#[derive(Clone, Debug, PartialEq, Eq)]
pub enum EthSuiBridgeEvents {
    TokensDepositedFilter(TokensDeposited),
    TokensClaimedFilter(TokensClaimed),
    PausedFilter,
    UnpausedFilter,
    UpgradedFilter,
    InitializedFilter,
}

/// The events of the bridge's contracts on Ethereum.
#[derive(Clone, Debug, PartialEq, Eq)]
pub enum EthBridgeEvent {
    EthSuiBridgeEvents(EthSuiBridgeEvents),
    EthBridgeCommitteeEvents,
    EthBridgeLimiterEvents,
    EthBridgeConfigEvents,
    EthCommitteeUpgradeableContractEvents,
}

/// A log entry of a bridge contract. `event` is what the entry decodes to, if it does.
#[derive(Clone, Debug, PartialEq, Eq)]
pub struct EthLog {
    pub block_number: u64,
    pub tx_hash: [u8; 32],
    pub event: Option<EthBridgeEvent>,
}

/// The signed number with the bit pattern of `n`.
pub open spec fn as_signed(n: nat) -> int {
    if n < 0x8000_0000_0000_0000 {
        n as int
    } else {
        n - 0x1_0000_0000_0000_0000
    }
}

/// Whether the index records an event: deposits always, claims only while they are
/// unfinalized, nothing else.
pub open spec fn is_recorded(event: EthBridgeEvent, finalized: bool) -> bool {
    match event {
        EthBridgeEvent::EthSuiBridgeEvents(EthSuiBridgeEvents::TokensDepositedFilter(_)) => true,
        EthBridgeEvent::EthSuiBridgeEvents(EthSuiBridgeEvents::TokensClaimedFilter(_)) =>
            !finalized,
        _ => false,
    }
}

/// The record of an event that was logged by the transaction `tx_hash` in the block
/// `block_number`, where the event is recorded at all.
pub open spec fn transfer_of(
    event: EthBridgeEvent,
    finalized: bool,
    block_number: u64,
    timestamp_ms: u64,
    tx_hash: Seq<u8>,
    gas: nat,
) -> Option<TokenTransferView> {
    match event {
        EthBridgeEvent::EthSuiBridgeEvents(EthSuiBridgeEvents::TokensDepositedFilter(deposit)) =>
            Some(
                TokenTransferView {
                    chain_id: deposit.source_chain_id,
                    nonce: deposit.nonce,
                    block_height: block_number,
                    timestamp_ms,
                    txn_hash: tx_hash,
                    txn_sender: deposit.sender_address@,
                    status: if finalized {
                        TokenTransferStatus::Deposited
                    } else {
                        TokenTransferStatus::DepositedUnfinalized
                    },
                    gas_usage: as_signed(gas) as i64,
                    data_source: BridgeDataSource::Eth,
                    data: Some(
                        TokenTransferDataView {
                            sender_address: deposit.sender_address@,
                            destination_chain: deposit.destination_chain_id,
                            recipient_address: deposit.recipient_address@,
                            token_id: deposit.token_id,
                            amount: deposit.sui_adjusted_amount,
                        },
                    ),
                },
            ),
        EthBridgeEvent::EthSuiBridgeEvents(EthSuiBridgeEvents::TokensClaimedFilter(claim)) =>
            if finalized {
                None
            } else {
                Some(
                    TokenTransferView {
                        chain_id: claim.source_chain_id,
                        nonce: claim.nonce,
                        block_height: block_number,
                        timestamp_ms,
                        txn_hash: tx_hash,
                        txn_sender: claim.sender_address@,
                        status: TokenTransferStatus::Claimed,
                        gas_usage: as_signed(gas) as i64,
                        data_source: BridgeDataSource::Eth,
                        data: None,
                    },
                )
            },
        _ => None,
    }
}

impl EthBridgeEvent {
    /// Whether the index records the event.
    pub fn is_recorded(&self, finalized: bool) -> (recorded: bool)
        ensures
            recorded == is_recorded(*self, finalized),
    {
        match self {
            EthBridgeEvent::EthSuiBridgeEvents(EthSuiBridgeEvents::TokensDepositedFilter(_)) => true,
            EthBridgeEvent::EthSuiBridgeEvents(EthSuiBridgeEvents::TokensClaimedFilter(_)) =>
                !finalized,
            _ => false,
        }
    }

    /// The record of the event, or `None` where the index records nothing.
    pub fn token_transfer(
        &self,
        finalized: bool,
        block_number: u64,
        timestamp_ms: u64,
        tx_hash: &[u8; 32],
        gas: &U256,
    ) -> (transfer: Option<TokenTransfer>)
        requires
            is_recorded(*self, finalized) ==> gas.value() <= u64::MAX,
        ensures
            match transfer {
                Some(t) => transfer_of(
                    *self,
                    finalized,
                    block_number,
                    timestamp_ms,
                    tx_hash@,
                    gas.value(),
                ) == Some(t@),
                None => transfer_of(
                    *self,
                    finalized,
                    block_number,
                    timestamp_ms,
                    tx_hash@,
                    gas.value(),
                ) is None,
            },
    {
        match self {
            EthBridgeEvent::EthSuiBridgeEvents(EthSuiBridgeEvents::TokensDepositedFilter(deposit)) => {
                Some(
                    TokenTransfer {
                        chain_id: deposit.source_chain_id,
                        nonce: deposit.nonce,
                        block_height: block_number,
                        timestamp_ms,
                        txn_hash: vstd::slice::slice_to_vec(tx_hash.as_slice()),
                        txn_sender: vstd::slice::slice_to_vec(
                            deposit.sender_address.bytes.as_slice(),
                        ),
                        status: if finalized {
                            TokenTransferStatus::Deposited
                        } else {
                            TokenTransferStatus::DepositedUnfinalized
                        },
                        gas_usage: gas_usage(gas),
                        data_source: BridgeDataSource::Eth,
                        data: Some(
                            TokenTransferData {
                                sender_address: vstd::slice::slice_to_vec(
                                    deposit.sender_address.bytes.as_slice(),
                                ),
                                destination_chain: deposit.destination_chain_id,
                                recipient_address: vstd::slice::slice_to_vec(
                                    deposit.recipient_address.as_slice(),
                                ),
                                token_id: deposit.token_id,
                                amount: deposit.sui_adjusted_amount,
                            },
                        ),
                    },
                )
            },
            EthBridgeEvent::EthSuiBridgeEvents(EthSuiBridgeEvents::TokensClaimedFilter(claim)) => {
                // Finalized claims are not written.
                if finalized {
                    return None;
                }
                Some(
                    TokenTransfer {
                        chain_id: claim.source_chain_id,
                        nonce: claim.nonce,
                        block_height: block_number,
                        timestamp_ms,
                        txn_hash: vstd::slice::slice_to_vec(tx_hash.as_slice()),
                        txn_sender: vstd::slice::slice_to_vec(claim.sender_address.as_slice()),
                        status: TokenTransferStatus::Claimed,
                        gas_usage: gas_usage(gas),
                        data_source: BridgeDataSource::Eth,
                        data: None,
                    },
                )
            },
            EthBridgeEvent::EthSuiBridgeEvents(EthSuiBridgeEvents::PausedFilter)
            | EthBridgeEvent::EthSuiBridgeEvents(EthSuiBridgeEvents::UnpausedFilter)
            | EthBridgeEvent::EthSuiBridgeEvents(EthSuiBridgeEvents::UpgradedFilter)
            | EthBridgeEvent::EthSuiBridgeEvents(EthSuiBridgeEvents::InitializedFilter)
            | EthBridgeEvent::EthBridgeCommitteeEvents
            | EthBridgeEvent::EthBridgeLimiterEvents
            | EthBridgeEvent::EthBridgeConfigEvents
            | EthBridgeEvent::EthCommitteeUpgradeableContractEvents => None,
        }
    }
}

/// The gas of a transaction in the signed form that the index keeps.
fn gas_usage(gas: &U256) -> (usage: i64)
    requires
        gas.value() <= u64::MAX,
    ensures
        usage == as_signed(gas.value()),
{
    let units: u64 = gas.as_u64();
    proof {
        assert(units < 0x8000_0000_0000_0000 ==> units as i64 == units) by (bit_vector);
        assert(units >= 0x8000_0000_0000_0000 ==> units as i64 == units
            - 0x1_0000_0000_0000_0000) by (bit_vector);
    }
    units as i64
}

/// The events that are recorded are those that have a record.
pub proof fn law_recorded_events_have_a_record(
    event: EthBridgeEvent,
    finalized: bool,
    block_number: u64,
    timestamp_ms: u64,
    tx_hash: Seq<u8>,
    gas: nat,
)
    ensures
        is_recorded(event, finalized) <==> transfer_of(
            event,
            finalized,
            block_number,
            timestamp_ms,
            tx_hash,
            gas,
        ) is Some,
{
}

/// A finalized stream records deposits only, as deposited. An unfinalized one records deposits
/// as not yet finalized, and claims.
pub proof fn law_status_follows_finality(
    event: EthBridgeEvent,
    finalized: bool,
    block_number: u64,
    timestamp_ms: u64,
    tx_hash: Seq<u8>,
    gas: nat,
)
    ensures
        transfer_of(event, finalized, block_number, timestamp_ms, tx_hash, gas) matches Some(t)
            ==> if finalized {
            t.status == TokenTransferStatus::Deposited
        } else {
            t.status == TokenTransferStatus::DepositedUnfinalized || t.status
                == TokenTransferStatus::Claimed
        },
{
}

/// What is recorded of an event in a finalized stream differs only in its status from what is
/// recorded of it in an unfinalized one, and whatever a finalized stream records, an unfinalized
/// one records too.
pub proof fn law_finality_changes_only_the_status(
    event: EthBridgeEvent,
    block_number: u64,
    timestamp_ms: u64,
    tx_hash: Seq<u8>,
    gas: nat,
)
    ensures
        transfer_of(event, true, block_number, timestamp_ms, tx_hash, gas) matches Some(t)
            ==> transfer_of(event, false, block_number, timestamp_ms, tx_hash, gas) == Some(
            TokenTransferView { status: TokenTransferStatus::DepositedUnfinalized, ..t },
        ),
{
}

/// Every record is of an event on Ethereum and holds the place of the event: its block, the
/// time of the block and its transaction. Amount and parties are recorded of deposits and not
/// of claims, and the sender of a deposit is the sender of its transaction.
pub proof fn law_records_hold_their_place(
    event: EthBridgeEvent,
    finalized: bool,
    block_number: u64,
    timestamp_ms: u64,
    tx_hash: Seq<u8>,
    gas: nat,
)
    ensures
        transfer_of(event, finalized, block_number, timestamp_ms, tx_hash, gas) matches Some(t)
            ==> {
            &&& t.data_source == BridgeDataSource::Eth
            &&& t.block_height == block_number
            &&& t.timestamp_ms == timestamp_ms
            &&& t.txn_hash == tx_hash
            &&& t.data is Some <==> t.status != TokenTransferStatus::Claimed
            &&& t.data matches Some(data) ==> data.sender_address == t.txn_sender
        },
{
}

/// The record of a deposit holds the deposit's own values, each in full, and where and when the
/// deposit was made. The gas is kept as the signed number of the same 64 bits.
pub proof fn law_deposits_are_recorded_as_they_are(
    deposit: TokensDeposited,
    finalized: bool,
    block_number: u64,
    timestamp_ms: u64,
    tx_hash: [u8; 32],
    gas: U256,
    transfer: Option<TokenTransfer>,
)
    requires
        gas.value() <= u64::MAX,
        call_ensures(
            EthBridgeEvent::token_transfer,
            (
                &EthBridgeEvent::EthSuiBridgeEvents(
                    EthSuiBridgeEvents::TokensDepositedFilter(deposit),
                ),
                finalized,
                block_number,
                timestamp_ms,
                &tx_hash,
                &gas,
            ),
            transfer,
        ),
    ensures
        transfer matches Some(t) && {
            &&& t.chain_id == deposit.source_chain_id
            &&& t.nonce == deposit.nonce
            &&& t.block_height == block_number
            &&& t.timestamp_ms == timestamp_ms
            &&& t.txn_hash@ == tx_hash@
            &&& t.txn_sender@ == deposit.sender_address.bytes@
            &&& finalized ==> t.status == TokenTransferStatus::Deposited
            &&& !finalized ==> t.status == TokenTransferStatus::DepositedUnfinalized
            &&& t.gas_usage == gas.value() || t.gas_usage == gas.value() - 0x1_0000_0000_0000_0000
            &&& t.data_source == BridgeDataSource::Eth
            &&& t.data is Some
            &&& t.data->0.sender_address@ == deposit.sender_address.bytes@
            &&& t.data->0.destination_chain == deposit.destination_chain_id
            &&& t.data->0.recipient_address@ == deposit.recipient_address@
            &&& t.data->0.token_id == deposit.token_id
            &&& t.data->0.amount == deposit.sui_adjusted_amount
        },
{
    let event = EthBridgeEvent::EthSuiBridgeEvents(
        EthSuiBridgeEvents::TokensDepositedFilter(deposit),
    );
    assert(transfer is Some);
    let t = transfer->0;
    crate::transfer::law_contents_are_the_fields(t);
    assert(transfer_of(event, finalized, block_number, timestamp_ms, tx_hash@, gas.value()) == Some(
        t@,
    ));
}

/// The record of an unfinalized claim holds the claim's own values, each in full, and where and
/// when the claim was made. The gas is kept as the signed number of the same 64 bits.
pub proof fn law_unfinalized_claims_are_recorded_as_they_are(
    claim: TokensClaimed,
    block_number: u64,
    timestamp_ms: u64,
    tx_hash: [u8; 32],
    gas: U256,
    transfer: Option<TokenTransfer>,
)
    requires
        gas.value() <= u64::MAX,
        call_ensures(
            EthBridgeEvent::token_transfer,
            (
                &EthBridgeEvent::EthSuiBridgeEvents(EthSuiBridgeEvents::TokensClaimedFilter(claim)),
                false,
                block_number,
                timestamp_ms,
                &tx_hash,
                &gas,
            ),
            transfer,
        ),
    ensures
        transfer matches Some(t) && {
            &&& t.chain_id == claim.source_chain_id
            &&& t.nonce == claim.nonce
            &&& t.block_height == block_number
            &&& t.timestamp_ms == timestamp_ms
            &&& t.txn_hash@ == tx_hash@
            &&& t.txn_sender@ == claim.sender_address@
            &&& t.status == TokenTransferStatus::Claimed
            &&& t.gas_usage == gas.value() || t.gas_usage == gas.value() - 0x1_0000_0000_0000_0000
            &&& t.data_source == BridgeDataSource::Eth
            &&& t.data is None
        },
{
    let event = EthBridgeEvent::EthSuiBridgeEvents(EthSuiBridgeEvents::TokensClaimedFilter(claim));
    assert(transfer is Some);
    let t = transfer->0;
    crate::transfer::law_contents_are_the_fields(t);
    assert(transfer_of(event, false, block_number, timestamp_ms, tx_hash@, gas.value()) == Some(t@));
}

/// There is a record of every deposit, and of every claim while it is unfinalized, and of nothing
/// else; what is said beforehand agrees with that.
pub proof fn law_deposits_and_unfinalized_claims_are_recorded(
    event: EthBridgeEvent,
    finalized: bool,
    block_number: u64,
    timestamp_ms: u64,
    tx_hash: [u8; 32],
    gas: U256,
    recorded: bool,
    transfer: Option<TokenTransfer>,
)
    requires
        call_ensures(EthBridgeEvent::is_recorded, (&event, finalized), recorded),
        call_ensures(
            EthBridgeEvent::token_transfer,
            (&event, finalized, block_number, timestamp_ms, &tx_hash, &gas),
            transfer,
        ),
    ensures
        transfer is Some <==> recorded,
        recorded <==> (event is EthSuiBridgeEvents && (event->EthSuiBridgeEvents_0
            is TokensDepositedFilter || event->EthSuiBridgeEvents_0 is TokensClaimedFilter
            && !finalized)),
{
}

/// Records of different deposits differ: what was deposited, by whom, for whom and where to can
/// be told from the record.
pub proof fn law_deposits_can_be_told_from_their_records(
    deposit1: TokensDeposited,
    deposit2: TokensDeposited,
    finalized: bool,
    block_number: u64,
    timestamp_ms: u64,
    tx_hash: Seq<u8>,
    gas1: u64,
    gas2: u64,
)
    requires
        transfer_of(
            EthBridgeEvent::EthSuiBridgeEvents(
                EthSuiBridgeEvents::TokensDepositedFilter(deposit1),
            ),
            finalized,
            block_number,
            timestamp_ms,
            tx_hash,
            gas1 as nat,
        ) == transfer_of(
            EthBridgeEvent::EthSuiBridgeEvents(
                EthSuiBridgeEvents::TokensDepositedFilter(deposit2),
            ),
            finalized,
            block_number,
            timestamp_ms,
            tx_hash,
            gas2 as nat,
        ),
    ensures
        deposit1.source_chain_id == deposit2.source_chain_id,
        deposit1.nonce == deposit2.nonce,
        deposit1.destination_chain_id == deposit2.destination_chain_id,
        deposit1.token_id == deposit2.token_id,
        deposit1.sui_adjusted_amount == deposit2.sui_adjusted_amount,
        deposit1.sender_address.bytes@ == deposit2.sender_address.bytes@,
        deposit1.recipient_address@ == deposit2.recipient_address@,
        gas1 == gas2,
{
}

/// Records of different unfinalized claims differ: which transfer was claimed, and by whom, can
/// be told from the record.
pub proof fn law_claims_can_be_told_from_their_records(
    claim1: TokensClaimed,
    claim2: TokensClaimed,
    block_number: u64,
    timestamp_ms: u64,
    tx_hash: Seq<u8>,
    gas1: u64,
    gas2: u64,
)
    requires
        transfer_of(
            EthBridgeEvent::EthSuiBridgeEvents(EthSuiBridgeEvents::TokensClaimedFilter(claim1)),
            false,
            block_number,
            timestamp_ms,
            tx_hash,
            gas1 as nat,
        ) == transfer_of(
            EthBridgeEvent::EthSuiBridgeEvents(EthSuiBridgeEvents::TokensClaimedFilter(claim2)),
            false,
            block_number,
            timestamp_ms,
            tx_hash,
            gas2 as nat,
        ),
    ensures
        claim1.source_chain_id == claim2.source_chain_id,
        claim1.nonce == claim2.nonce,
        claim1.sender_address@ == claim2.sender_address@,
        gas1 == gas2,
{
}

} // verus!
