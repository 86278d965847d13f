use vstd::prelude::*;

verus! {

/// How far a token transfer over the bridge has come.
#[derive(Clone, Copy, Debug, PartialEq, Eq, Structural)]
pub enum TokenTransferStatus {
    DepositedUnfinalized,
    Deposited,
    Approved,
    Claimed,
}

/// The chain on which a transfer was observed.
#[derive(Clone, Copy, Debug, PartialEq, Eq, Structural)]
pub enum BridgeDataSource {
    Sui,
    Eth,
}

/// What is moved, and from whom to whom.
#[derive(Clone, Debug, PartialEq, Eq)]
pub struct TokenTransferData {
    pub sender_address: Vec<u8>,
    pub destination_chain: u8,
    pub recipient_address: Vec<u8>,
    pub token_id: u8,
    pub amount: u64,
}

/// One step of a token transfer, as the index records it.
#[derive(Clone, Debug, PartialEq, Eq)]
pub struct TokenTransfer {
    pub chain_id: u8,
    pub nonce: u64,
    pub block_height: u64,
    pub timestamp_ms: u64,
    pub txn_hash: Vec<u8>,
    pub txn_sender: Vec<u8>,
    pub status: TokenTransferStatus,
    pub gas_usage: i64,
    pub data_source: BridgeDataSource,
    pub data: Option<TokenTransferData>,
}

/// The contents of a [`TokenTransferData`].
#[verifier::ext_equal]
pub struct TokenTransferDataView {
    pub sender_address: Seq<u8>,
    pub destination_chain: u8,
    pub recipient_address: Seq<u8>,
    pub token_id: u8,
    pub amount: u64,
}

/// The contents of a [`TokenTransfer`].
#[verifier::ext_equal]
pub struct TokenTransferView {
    pub chain_id: u8,
    pub nonce: u64,
    pub block_height: u64,
    pub timestamp_ms: u64,
    pub txn_hash: Seq<u8>,
    pub txn_sender: Seq<u8>,
    pub status: TokenTransferStatus,
    pub gas_usage: i64,
    pub data_source: BridgeDataSource,
    pub data: Option<TokenTransferDataView>,
}

impl View for TokenTransferData {
    type V = TokenTransferDataView;

    open spec fn view(&self) -> TokenTransferDataView {
        TokenTransferDataView {
            sender_address: self.sender_address@,
            destination_chain: self.destination_chain,
            recipient_address: self.recipient_address@,
            token_id: self.token_id,
            amount: self.amount,
        }
    }
}

impl View for TokenTransfer {
    type V = TokenTransferView;

    open spec fn view(&self) -> TokenTransferView {
        TokenTransferView {
            chain_id: self.chain_id,
            nonce: self.nonce,
            block_height: self.block_height,
            timestamp_ms: self.timestamp_ms,
            txn_hash: self.txn_hash@,
            txn_sender: self.txn_sender@,
            status: self.status,
            gas_usage: self.gas_usage,
            data_source: self.data_source,
            data: match self.data {
                Some(data) => Some(data@),
                None => None,
            },
        }
    }
}

/// The contents of a record are what its fields hold, each as it is.
pub proof fn law_contents_are_the_fields(transfer: TokenTransfer)
    ensures
        transfer@.chain_id == transfer.chain_id,
        transfer@.nonce == transfer.nonce,
        transfer@.block_height == transfer.block_height,
        transfer@.timestamp_ms == transfer.timestamp_ms,
        transfer@.txn_hash == transfer.txn_hash@,
        transfer@.txn_sender == transfer.txn_sender@,
        transfer@.status == transfer.status,
        transfer@.gas_usage == transfer.gas_usage,
        transfer@.data_source == transfer.data_source,
        transfer@.data is Some <==> transfer.data is Some,
        transfer.data matches Some(data) ==> {
            &&& transfer@.data->0.sender_address == data.sender_address@
            &&& transfer@.data->0.destination_chain == data.destination_chain
            &&& transfer@.data->0.recipient_address == data.recipient_address@
            &&& transfer@.data->0.token_id == data.token_id
            &&& transfer@.data->0.amount == data.amount
        },
{
}

} // verus!
