//! What the indexer is started with.
use vstd::prelude::*;
use crate::config::Config;

verus! {

/// The address of the metrics server: host and port, with a colon between them.
pub open spec fn metrics_address_text(config: Config) -> Seq<char> {
    config.metric_url@.push(':') + crate::decimal::decimal(config.metric_port as nat)
}

/// The address that the metrics server listens on.
pub fn metrics_address(config: &Config) -> (address: String)
    ensures
        address@ == metrics_address_text(*config),
{
    proof {
        reveal_strlit(":");
    }
    let mut address = String::new();
    address.append(config.metric_url.as_str());
    address.append(":");
    crate::decimal::append_decimal(&mut address, config.metric_port);
    address
}

/// How checkpoints are ingested: by one workflow, a pool of workers of one name.
#[derive(Clone, Debug, PartialEq, Eq)]
pub struct CheckpointIngestion {
    pub progress_store_file: String,
    pub workflow_types: usize,
    pub db_url: String,
    pub worker_name: String,
    pub concurrency: usize,
    pub checkpoints_path: String,
    pub remote_store_url: Option<String>,
}

/// The ingestion of checkpoints that the configuration asks for.
pub fn start_processing_sui_checkpoints(config: &Config) -> (ingestion: CheckpointIngestion)
    ensures
        ingestion.progress_store_file@ == config.progress_store_file@,
        ingestion.workflow_types == 1,
        ingestion.db_url@ == config.db_url@,
        ingestion.worker_name@ == "bridge worker"@,
        ingestion.concurrency == config.concurrency as usize,
        ingestion.checkpoints_path@ == config.checkpoints_path@,
        ingestion.remote_store_url matches Some(url) && url@ == config.remote_store_url@,
{
    CheckpointIngestion {
        progress_store_file: config.progress_store_file.clone(),
        workflow_types: 1,
        db_url: config.db_url.clone(),
        worker_name: "bridge worker".to_owned(),
        concurrency: config.concurrency as usize,
        checkpoints_path: config.checkpoints_path.clone(),
        remote_store_url: Some(config.remote_store_url.clone()),
    }
}

/// The metrics server listens at the configured host and port: the address is the host as it is,
/// a colon, and behind it digits that read as the port.
pub proof fn law_metrics_are_served_at_host_and_port(config: Config, address: String)
    requires
        call_ensures(metrics_address, (&config,), address),
    ensures
        ({
            let host = config.metric_url@;
            let port = address@.skip(host.len() as int + 1);
            &&& address@.len() > host.len() + 1
            &&& address@.take(host.len() as int) == host
            &&& address@[host.len() as int] == ':'
            &&& forall|i: int| 0 <= i < port.len() ==> '0' <= #[trigger] port[i] <= '9'
            &&& port.fold_left(0, |sum: int, c: char| 10 * sum + (c as int - '0' as int))
                == config.metric_port
            &&& port[0] == '0' ==> port.len() == 1
        }),
{
    let host = config.metric_url@;
    crate::decimal::law_decimals_are_read_back(config.metric_port as nat);
    assert(address@.skip(host.len() as int + 1) =~= crate::decimal::decimal(config.metric_port as nat));
    assert(address@.take(host.len() as int) =~= host);
}

/// Checkpoints are ingested by one workflow, with the stores, the database and the number of
/// workers that the configuration gives.
pub proof fn law_checkpoints_are_ingested_as_configured(
    config: Config,
    ingestion: CheckpointIngestion,
)
    requires
        call_ensures(start_processing_sui_checkpoints, (&config,), ingestion),
    ensures
        ingestion.workflow_types == 1,
        ingestion.worker_name@ == "bridge worker"@,
        config.concurrency <= usize::MAX ==> ingestion.concurrency == config.concurrency,
        ingestion.progress_store_file@ == config.progress_store_file@,
        ingestion.db_url@ == config.db_url@,
        ingestion.checkpoints_path@ == config.checkpoints_path@,
        ingestion.remote_store_url is Some,
        ingestion.remote_store_url->0@ == config.remote_store_url@,
{
}

} // verus!
