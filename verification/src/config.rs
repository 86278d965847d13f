use vstd::prelude::*;

verus! {

/// The configuration of the bridge indexer.
#[derive(Clone, Debug, PartialEq, Eq)]
pub struct Config {
    pub remote_store_url: String,
    pub eth_rpc_url: String,
    pub db_url: String,
    pub progress_store_file: String,
    pub checkpoints_path: String,
    pub concurrency: u64,
    pub eth_sui_bridge_contract_address: String,
    pub start_block: u64,
    pub metric_url: String,
    pub metric_port: u16,
}

} // verus!
