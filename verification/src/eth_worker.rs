//! The worker that follows the bridge contract on Ethereum: where it starts, and in which order
//! it sets up its two streams of log entries.
use vstd::prelude::*;
use crate::config::Config;
use crate::eth_address::EthAddress;
use crate::eth_stream::EthEventStream;
#[allow(unused_imports)]
use crate::eth_stream::StreamView;

verus! {

/// How often the worker polls its Ethereum node, in milliseconds.
pub const POLL_INTERVAL_MS: u64 = 2000;

/// Why a worker cannot be made.
#[derive(Clone, Debug, PartialEq, Eq)]
pub enum WorkerError {
    /// The configured contract address is none, for the reason given.
    InvalidAddress { reason: String },
    /// There is no way to reach the configured node.
    NoHttpProvider { url: String },
}

impl WorkerError {
    /// What the error says.
    pub open spec fn text(self) -> Seq<char> {
        match self {
            WorkerError::InvalidAddress { reason } => "Invalid Ethereum address: "@ + reason@,
            WorkerError::NoHttpProvider { url } =>
                "Cannot create Ethereum HTTP provider, URL: "@ + url@,
        }
    }

    /// The error in words.
    pub fn message(&self) -> (message: String)
        ensures
            message@ == self.text(),
    {
        let mut message = String::new();
        match self {
            WorkerError::InvalidAddress { reason } => {
                message.append("Invalid Ethereum address: ");
                message.append(reason.as_str());
            },
            WorkerError::NoHttpProvider { url } => {
                message.append("Cannot create Ethereum HTTP provider, URL: ");
                message.append(url.as_str());
            },
        }
        message
    }
}

/// What a stream of log entries is started with: the one contract to follow, and the block to
/// start from.
#[derive(Clone, Copy, Debug, PartialEq, Eq)]
pub struct StreamStart {
    pub finalized: bool,
    pub contract: EthAddress,
    pub block: u64,
}

/// The worker for one bridge contract.
#[derive(Clone, Debug, PartialEq, Eq)]
pub struct EthBridgeWorker {
    pub bridge_address: EthAddress,
    pub config: Config,
}

/// The unsigned number with the bit pattern of `n`.
pub open spec fn as_unsigned(n: int) -> int {
    if n >= 0 {
        n
    } else {
        n + 0x1_0000_0000_0000_0000
    }
}

/// The block from which a stream is followed: that of the newest transfer on record, else the
/// configured one.
pub open spec fn first_block(latest: Option<i64>, start_block: u64) -> u64 {
    match latest {
        Some(height) => as_unsigned(height as int) as u64,
        None => start_block,
    }
}

impl EthBridgeWorker {
    /// A worker for the contract and the node that the configuration names.
    pub fn new(config: Config) -> (worker: Self)
        requires
            crate::eth_address::is_address_text(config.eth_sui_bridge_contract_address@),
            is_node_url(config.eth_rpc_url@),
        ensures
            worker.bridge_address@ == crate::eth_address::address_bytes(
                config.eth_sui_bridge_contract_address@,
            ),
            worker.config == config,
    {
        match EthAddress::parse(config.eth_sui_bridge_contract_address.as_str()) {
            Ok(bridge_address) => EthBridgeWorker { bridge_address, config },
            Err(_) => vstd::pervasive::unreached(),
        }
    }

    /// A worker for the contract and the node that the configuration names, or what is wrong
    /// with the first of them that is no contract or no node.
    pub fn try_new(config: Config) -> (made: Result<Self, WorkerError>)
        ensures
            ({
                let contract = config.eth_sui_bridge_contract_address@;
                let node = config.eth_rpc_url@;
                if !crate::eth_address::is_address_text(contract) {
                    made matches Err(WorkerError::InvalidAddress { reason }) && reason@
                        == crate::eth_address::address_error(contract)
                } else if !is_node_url(node) {
                    made matches Err(WorkerError::NoHttpProvider { url }) && url@ == node
                } else {
                    made matches Ok(worker) && {
                        &&& worker.bridge_address@ == crate::eth_address::address_bytes(contract)
                        &&& worker.config == config
                    }
                }
            }),
    {
        let parsed = EthAddress::parse(config.eth_sui_bridge_contract_address.as_str());
        let has_provider = has_http_provider(config.eth_rpc_url.as_str());
        match setup_error(parsed, has_provider, &config.eth_rpc_url) {
            Some(error) => Err(error),
            None => Ok(EthBridgeWorker::new(config)),
        }
    }

    /// What a stream is started with. `latest_height` is the block height of the newest transfer
    /// on record.
    pub open spec fn stream_start(self, finalized: bool, latest_height: Option<i64>) -> StreamStart {
        StreamStart {
            finalized,
            contract: self.bridge_address,
            block: first_block(latest_height, self.config.start_block),
        }
    }

    /// The start of the finalized stream. `latest_height` is the block height of the newest
    /// finalized transfer on record.
    pub fn start_processing_finalized_eth_events(&self, latest_height: Option<i64>) -> (start:
        StreamStart)
        ensures
            start == self.stream_start(true, latest_height),
    {
        let newest_finalized_block = block_after_restart(latest_height, self.config.start_block);
        StreamStart {
            finalized: true,
            contract: self.bridge_address,
            block: newest_finalized_block,
        }
    }

    /// The start of the unfinalized stream. `latest_height` is the block height of the newest
    /// unfinalized transfer on record.
    pub fn start_processing_unfinalized_eth_events(&self, latest_height: Option<i64>) -> (start:
        StreamStart)
        ensures
            start == self.stream_start(false, latest_height),
    {
        let newest_unfinalized_block_recorded = block_after_restart(
            latest_height,
            self.config.start_block,
        );
        StreamStart {
            finalized: false,
            contract: self.bridge_address,
            block: newest_unfinalized_block_recorded,
        }
    }

    /// The setting up of the worker's streams. The node is the one that `config` names; the
    /// streams start as the worker's own configuration says.
    pub fn run<E>(self, config: &Config) -> (run: EthRun<E>)
        ensures
            run@ == (RunView {
                worker: self,
                rpc_url: config.eth_rpc_url@,
                phase: RunPhase::<E>::Connecting,
            }),
    {
        EthRun { worker: self, rpc_url: config.eth_rpc_url.clone(), phase: RunPhase::Connecting }
    }

    /// The processing of the log entries of a stream that was started.
    pub fn process_eth_events(&self, finalized: bool) -> (stream: EthEventStream)
        ensures
            stream@ == StreamView::start(finalized),
    {
        EthEventStream::new(finalized)
    }
}

/// What keeps a worker from being made: a contract address that did not parse, else a node at
/// `url` without a provider.
pub fn setup_error(
    parsed: Result<EthAddress, String>,
    has_provider: bool,
    url: &String,
) -> (error: Option<WorkerError>)
    ensures
        match parsed {
            Err(reason) => error == Some(WorkerError::InvalidAddress { reason }),
            Ok(_) => if has_provider {
                error is None
            } else {
                error matches Some(WorkerError::NoHttpProvider { url: u }) && u@ == url@
            },
        },
{
    match parsed {
        Err(reason) => Some(WorkerError::InvalidAddress { reason }),
        Ok(_) => {
            if has_provider {
                None
            } else {
                Some(WorkerError::NoHttpProvider { url: url.clone() })
            }
        },
    }
}

/// Whether `ethers` makes an HTTP provider for the node at a URL.
pub uninterp spec fn is_node_url(url: Seq<char>) -> bool;

/// `ethers::providers::Provider::<Http>::try_from`, as far as it says whether there is a
/// provider for `url`: that depends on the text alone, which has to parse as a URL. The provider
/// itself is let go; it is for whoever talks to the node.
#[verifier::external_body]
fn has_http_provider(url: &str) -> (made: bool)
    ensures
        made == is_node_url(url@),
{
    ethers::providers::Provider::<ethers::providers::Http>::try_from(url).is_ok()
}

/// The block from which a stream is followed.
fn block_after_restart(latest_height: Option<i64>, start_block: u64) -> (block: u64)
    ensures
        block == first_block(latest_height, start_block),
{
    match latest_height {
        Some(height) => {
            proof {
                assert(height >= 0 ==> height as u64 == height) by (bit_vector);
                assert(height < 0 ==> height as u64 == height + 0x1_0000_0000_0000_0000)
                    by (bit_vector);
            }
            height as u64
        },
        None => start_block,
    }
}

/// How far the setting up has come. `E` is the error of whoever connects and looks up.
#[derive(Debug)]
pub enum RunPhase<E> {
    /// The client of the Ethereum node is being made.
    Connecting,
    /// The newest transfer on record, finalized or not, is being looked up.
    ReadingLatest { finalized: bool },
    /// A stream is being started.
    Starting { start: StreamStart },
    /// Both streams are running.
    Finished,
    /// Connecting or looking up failed.
    Failed { error: E },
    /// A stream did not start.
    Aborted,
}

/// What has to be done next.
#[derive(Debug)]
pub enum RunAction<'a> {
    /// Make a client for the node at `rpc_url`, for the one contract.
    Connect { rpc_url: &'a str, contract: EthAddress },
    /// Look up the block height of the newest transfer on record.
    ReadLatest { finalized: bool },
    /// Start a stream, and process its log entries.
    StartStream { start: StreamStart },
    /// Nothing; the outcome is settled.
    Settle,
    /// Stop.
    Abort,
}

/// The setting up of a worker's two streams.
#[derive(Debug)]
pub struct EthRun<E> {
    worker: EthBridgeWorker,
    rpc_url: String,
    phase: RunPhase<E>,
}

/// The state of the setting up, as contracts speak of it.
pub struct RunView<E> {
    pub worker: EthBridgeWorker,
    pub rpc_url: Seq<char>,
    pub phase: RunPhase<E>,
}

impl<E> View for EthRun<E> {
    type V = RunView<E>;

    closed spec fn view(&self) -> RunView<E> {
        RunView { worker: self.worker, rpc_url: self.rpc_url@, phase: self.phase }
    }
}

impl<E> RunView<E> {
    /// The same worker in another phase.
    pub open spec fn in_phase(self, phase: RunPhase<E>) -> RunView<E> {
        RunView { phase, ..self }
    }

    /// Whether `action` is what has to be done next.
    pub open spec fn asks_for(self, action: RunAction<'_>) -> bool {
        match self.phase {
            RunPhase::Connecting => action matches RunAction::Connect { rpc_url, contract } && {
                &&& rpc_url@ == self.rpc_url
                &&& contract == self.worker.bridge_address
            },
            RunPhase::ReadingLatest { finalized } => action matches RunAction::ReadLatest {
                finalized: f,
            } && f == finalized,
            RunPhase::Starting { start } => action matches RunAction::StartStream { start: s } && s
                == start,
            RunPhase::Finished | RunPhase::Failed { .. } => action is Settle,
            RunPhase::Aborted => action is Abort,
        }
    }

    /// A client was made, or could not be.
    pub open spec fn after_connect(self, connected: Result<(), E>) -> RunView<E> {
        match connected {
            Ok(_) => self.in_phase(RunPhase::ReadingLatest { finalized: true }),
            Err(error) => self.in_phase(RunPhase::Failed { error }),
        }
    }

    /// The newest transfer was looked up, or could not be.
    pub open spec fn after_latest(self, latest: Result<Option<i64>, E>) -> RunView<E> {
        match latest {
            Ok(height) => self.in_phase(
                RunPhase::Starting {
                    start: self.worker.stream_start(self.phase->ReadingLatest_finalized, height),
                },
            ),
            Err(error) => self.in_phase(RunPhase::Failed { error }),
        }
    }

    /// The stream was started, or did not start. The unfinalized stream follows the finalized
    /// one.
    pub open spec fn after_start(self, started: bool) -> RunView<E> {
        if !started {
            self.in_phase(RunPhase::Aborted)
        } else if self.phase->start.finalized {
            self.in_phase(RunPhase::ReadingLatest { finalized: false })
        } else {
            self.in_phase(RunPhase::Finished)
        }
    }
}

impl<E> EthRun<E> {
    /// What has to be done next.
    pub fn action(&self) -> (action: RunAction<'_>)
        ensures
            self@.asks_for(action),
    {
        match &self.phase {
            RunPhase::Connecting => RunAction::Connect {
                rpc_url: self.rpc_url.as_str(),
                contract: self.worker.bridge_address,
            },
            RunPhase::ReadingLatest { finalized } => RunAction::ReadLatest {
                finalized: *finalized,
            },
            RunPhase::Starting { start } => RunAction::StartStream { start: *start },
            RunPhase::Finished => RunAction::Settle,
            RunPhase::Failed { error: _ } => RunAction::Settle,
            RunPhase::Aborted => RunAction::Abort,
        }
    }

    /// Takes notice of the client that was asked for, or of the error.
    pub fn on_connect(self, connected: Result<(), E>) -> (run: Self)
        requires
            self@.phase is Connecting,
        ensures
            run@ == self@.after_connect(connected),
    {
        let phase = match connected {
            Ok(_) => RunPhase::ReadingLatest { finalized: true },
            Err(error) => RunPhase::Failed { error },
        };
        EthRun { worker: self.worker, rpc_url: self.rpc_url, phase }
    }

    /// Takes the block height of the newest transfer on record, `None` where there is no such
    /// transfer, or the error.
    pub fn on_latest(self, latest: Result<Option<i64>, E>) -> (run: Self)
        requires
            self@.phase is ReadingLatest,
        ensures
            run@ == self@.after_latest(latest),
    {
        let finalized = match &self.phase {
            RunPhase::ReadingLatest { finalized } => *finalized,
            _ => vstd::pervasive::unreached(),
        };
        let phase = match latest {
            Ok(height) => RunPhase::Starting {
                start: if finalized {
                    self.worker.start_processing_finalized_eth_events(height)
                } else {
                    self.worker.start_processing_unfinalized_eth_events(height)
                },
            },
            Err(error) => RunPhase::Failed { error },
        };
        EthRun { worker: self.worker, rpc_url: self.rpc_url, phase }
    }

    /// Takes notice whether the stream was started.
    pub fn on_start(self, started: bool) -> (run: Self)
        requires
            self@.phase is Starting,
        ensures
            run@ == self@.after_start(started),
    {
        let finalized = match &self.phase {
            RunPhase::Starting { start } => start.finalized,
            _ => vstd::pervasive::unreached(),
        };
        let phase = if !started {
            RunPhase::Aborted
        } else if finalized {
            RunPhase::ReadingLatest { finalized: false }
        } else {
            RunPhase::Finished
        };
        EthRun { worker: self.worker, rpc_url: self.rpc_url, phase }
    }

    /// The outcome, once it is settled.
    pub fn outcome(self) -> (outcome: Result<(), E>)
        requires
            self@.phase is Finished || self@.phase is Failed,
        ensures
            self@.phase is Finished ==> outcome == Ok::<(), E>(()),
            self@.phase matches RunPhase::Failed { error } ==> outcome == Err::<(), E>(error),
    {
        match self.phase {
            RunPhase::Failed { error } => Err(error),
            _ => Ok(()),
        }
    }
}

/// Where everything succeeds, the finalized stream is started first and the unfinalized one
/// after it, each from its own newest transfer on record, and then the worker is set up.
pub proof fn law_finalized_stream_comes_first<E>(
    run: RunView<E>,
    finalized_height: Option<i64>,
    unfinalized_height: Option<i64>,
)
    requires
        run.phase is Connecting,
    ensures
        ({
            let connected = run.after_connect(Ok(()));
            let starting_finalized = connected.after_latest(Ok(finalized_height));
            let started_finalized = starting_finalized.after_start(true);
            let starting_unfinalized = started_finalized.after_latest(Ok(unfinalized_height));
            &&& connected.phase == RunPhase::<E>::ReadingLatest { finalized: true }
            &&& starting_finalized.phase == RunPhase::<E>::Starting {
                start: run.worker.stream_start(true, finalized_height),
            }
            &&& started_finalized.phase == RunPhase::<E>::ReadingLatest { finalized: false }
            &&& starting_unfinalized.phase == RunPhase::<E>::Starting {
                start: run.worker.stream_start(false, unfinalized_height),
            }
            &&& starting_unfinalized.after_start(true) == run.in_phase(RunPhase::Finished)
        }),
{
}

/// An error while connecting or looking up ends the setting up with that error: nothing is asked
/// for after it, so that no stream is started.
pub proof fn law_errors_end_the_setting_up<E>(run: RunView<E>, error: E, action: RunAction<'_>)
    ensures
        run.after_connect(Err(error)).phase == (RunPhase::Failed { error }),
        run.after_connect(Err(error)).asks_for(action) ==> action is Settle,
        run.after_latest(Err(error)).phase == (RunPhase::Failed { error }),
        run.after_latest(Err(error)).asks_for(action) ==> action is Settle,
{
}

/// A stream that does not start stops the worker: nothing is asked for after it.
pub proof fn law_a_stream_that_does_not_start_stops_the_worker<E>(
    run: RunView<E>,
    action: RunAction<'_>,
)
    ensures
        run.after_start(false).asks_for(action) ==> action is Abort,
{
}

/// A worker resumes where the index left off: a block height that was put on record, in its
/// signed form, comes back as the block to start from.
pub proof fn law_restart_resumes_at_the_newest_record(height: u64, start_block: u64)
    ensures
        first_block(Some(crate::eth_event::as_signed(height as nat) as i64), start_block) == height,
{
}

/// Both streams follow the worker's contract from the block of the newest record of their kind,
/// in full, and from the configured block where there is no such record. A height that the index
/// gives as a negative number is the block of the same 64 bits.
pub proof fn law_streams_start_at_the_newest_record(
    worker: EthBridgeWorker,
    latest_height: Option<i64>,
    finalized_start: StreamStart,
    unfinalized_start: StreamStart,
)
    requires
        call_ensures(
            EthBridgeWorker::start_processing_finalized_eth_events,
            (&worker, latest_height),
            finalized_start,
        ),
        call_ensures(
            EthBridgeWorker::start_processing_unfinalized_eth_events,
            (&worker, latest_height),
            unfinalized_start,
        ),
    ensures
        finalized_start.finalized,
        !unfinalized_start.finalized,
        finalized_start.contract.bytes@ == worker.bridge_address.bytes@,
        unfinalized_start.contract.bytes@ == worker.bridge_address.bytes@,
        unfinalized_start.block == finalized_start.block,
        latest_height is None ==> finalized_start.block == worker.config.start_block,
        latest_height matches Some(height) ==> {
            &&& height >= 0 ==> finalized_start.block == height
            &&& height < 0 ==> finalized_start.block == height + 0x1_0000_0000_0000_0000
        },
{
}

/// The stream that is asked for after a look at the index follows the worker's contract from the
/// block that was found there, else from the configured one, and it is of the kind that was
/// looked for.
pub proof fn law_the_stream_asked_for_resumes_at_the_newest_record<E>(
    run: EthRun<E>,
    latest_height: Option<i64>,
    after: EthRun<E>,
    action: RunAction<'_>,
)
    requires
        run@.phase is ReadingLatest,
        call_ensures(EthRun::<E>::on_latest, (run, Ok::<Option<i64>, E>(latest_height)), after),
        call_ensures(EthRun::<E>::action, (&after,), action),
    ensures
        action is StartStream,
        action->start.finalized == run@.phase->ReadingLatest_finalized,
        action->start.contract.bytes@ == run@.worker.bridge_address.bytes@,
        latest_height is None ==> action->start.block == run@.worker.config.start_block,
        latest_height matches Some(height) ==> {
            &&& height >= 0 ==> action->start.block == height
            &&& height < 0 ==> action->start.block == height + 0x1_0000_0000_0000_0000
        },
        after@.worker == run@.worker,
        after@.rpc_url == run@.rpc_url,
{
}

/// The setting up begins with a client for the node that is named and for the worker's contract.
pub proof fn law_the_client_comes_first<E>(
    worker: EthBridgeWorker,
    config: Config,
    run: EthRun<E>,
    action: RunAction<'_>,
)
    requires
        call_ensures(EthBridgeWorker::run::<E>, (worker, &config), run),
        call_ensures(EthRun::<E>::action, (&run,), action),
    ensures
        action is Connect,
        action->rpc_url@ == config.eth_rpc_url@,
        action->contract.bytes@ == worker.bridge_address.bytes@,
        run@.worker == worker,
        run@.phase is Connecting,
{
}

/// With the client, the newest finalized record is looked for.
pub proof fn law_the_finalized_record_is_looked_for_first<E>(
    run: EthRun<E>,
    after: EthRun<E>,
    action: RunAction<'_>,
)
    requires
        run@.phase is Connecting,
        call_ensures(EthRun::<E>::on_connect, (run, Ok::<(), E>(())), after),
        call_ensures(EthRun::<E>::action, (&after,), action),
    ensures
        action is ReadLatest,
        action->ReadLatest_finalized,
        after@.phase is ReadingLatest,
        after@.phase->ReadingLatest_finalized,
        after@.worker == run@.worker,
        after@.rpc_url == run@.rpc_url,
{
}

/// Once the finalized stream has started, the newest unfinalized record is looked for; once the
/// unfinalized one has started, the setting up is done. A stream that does not start stops it.
pub proof fn law_the_unfinalized_stream_comes_last<E>(
    run: EthRun<E>,
    started: bool,
    after: EthRun<E>,
    action: RunAction<'_>,
)
    requires
        run@.phase is Starting,
        call_ensures(EthRun::<E>::on_start, (run, started), after),
        call_ensures(EthRun::<E>::action, (&after,), action),
    ensures
        !started ==> action is Abort,
        started && run@.phase->start.finalized ==> {
            &&& action is ReadLatest
            &&& !action->ReadLatest_finalized
            &&& after@.phase is ReadingLatest
            &&& !after@.phase->ReadingLatest_finalized
        },
        started && !run@.phase->start.finalized ==> action is Settle && after@.phase is Finished,
        after@.worker == run@.worker,
        after@.rpc_url == run@.rpc_url,
{
}

/// An error while connecting or looking up is the outcome, and nothing is asked for after it.
pub proof fn law_errors_are_the_outcome<E>(
    run: EthRun<E>,
    error: E,
    after: EthRun<E>,
    action: RunAction<'_>,
    outcome: Result<(), E>,
)
    requires
        run@.phase is Connecting || run@.phase is ReadingLatest,
        run@.phase is Connecting ==> call_ensures(
            EthRun::<E>::on_connect,
            (run, Err::<(), E>(error)),
            after,
        ),
        run@.phase is ReadingLatest ==> call_ensures(
            EthRun::<E>::on_latest,
            (run, Err::<Option<i64>, E>(error)),
            after,
        ),
        call_ensures(EthRun::<E>::action, (&after,), action),
        call_ensures(EthRun::<E>::outcome, (after,), outcome),
    ensures
        action is Settle,
        outcome == Err::<(), E>(error),
{
}

/// Where both streams run, the outcome is a success.
pub proof fn law_two_streams_are_a_success<E>(run: EthRun<E>, outcome: Result<(), E>)
    requires
        run@.phase is Finished,
        call_ensures(EthRun::<E>::outcome, (run,), outcome),
    ensures
        outcome is Ok,
{
}

/// The log entries of a stream are processed as those of a stream of its kind, beginning with a
/// batch.
pub proof fn law_streams_are_processed_by_their_kind(
    worker: EthBridgeWorker,
    finalized: bool,
    stream: EthEventStream,
)
    requires
        call_ensures(EthBridgeWorker::process_eth_events, (&worker, finalized), stream),
    ensures
        stream@.finalized == finalized,
        stream@.phase is Batch,
{
}

/// A worker is made exactly if the configuration names a contract and a node; it follows that
/// contract and keeps the configuration. What is said otherwise is what is wrong, of the contract
/// first.
pub proof fn law_workers_need_a_contract_and_a_node(
    config: Config,
    contract: &str,
    parsed: Result<EthAddress, String>,
    made: Result<EthBridgeWorker, WorkerError>,
)
    requires
        contract@ == config.eth_sui_bridge_contract_address@,
        call_ensures(EthAddress::parse, (contract,), parsed),
        call_ensures(EthBridgeWorker::try_new, (config,), made),
    ensures
        made is Ok <==> parsed is Ok && is_node_url(config.eth_rpc_url@),
        made matches Ok(worker) ==> {
            &&& worker.bridge_address.bytes@ == parsed->Ok_0.bytes@
            &&& worker.config == config
        },
        parsed matches Err(reason) ==> {
            &&& made is Err
            &&& made->Err_0 is InvalidAddress
            &&& made->Err_0->reason@ == reason@
        },
        parsed is Ok && made is Err ==> {
            &&& made->Err_0 is NoHttpProvider
            &&& made->Err_0->url@ == config.eth_rpc_url@
        },
{
}

/// A worker that is made without asking is the one that is made when it is asked for.
pub proof fn law_both_ways_make_the_same_worker(
    config: Config,
    worker: EthBridgeWorker,
    made: Result<EthBridgeWorker, WorkerError>,
)
    requires
        crate::eth_address::is_address_text(config.eth_sui_bridge_contract_address@),
        is_node_url(config.eth_rpc_url@),
        call_ensures(EthBridgeWorker::new, (config,), worker),
        call_ensures(EthBridgeWorker::try_new, (config,), made),
    ensures
        made is Ok,
        worker.bridge_address.bytes@ == made->Ok_0.bridge_address.bytes@,
        worker.config == config,
{
}

/// An address that did not parse comes before a node without a provider, and is passed on with
/// its reason; there is no error without either.
pub proof fn law_the_contract_is_judged_before_the_node(
    parsed: Result<EthAddress, String>,
    has_provider: bool,
    url: String,
    error: Option<WorkerError>,
)
    requires
        call_ensures(setup_error, (parsed, has_provider, &url), error),
    ensures
        error is None <==> parsed is Ok && has_provider,
        parsed matches Err(reason) ==> {
            &&& error->0 is InvalidAddress
            &&& error->0->reason@ == reason@
        },
        parsed is Ok && !has_provider ==> {
            &&& error->0 is NoHttpProvider
            &&& error->0->url@ == url@
        },
{
}

/// An error says what is wrong, and with what, in full.
pub proof fn law_errors_say_what_is_wrong(error: WorkerError, message: String)
    requires
        call_ensures(WorkerError::message, (&error,), message),
    ensures
        error matches WorkerError::InvalidAddress { reason } ==> message@
            == "Invalid Ethereum address: "@ + reason@,
        error matches WorkerError::NoHttpProvider { url } ==> message@
            == "Cannot create Ethereum HTTP provider, URL: "@ + url@,
{
}

/// The node is polled every two seconds.
pub proof fn law_the_node_is_polled_every_two_seconds()
    ensures
        POLL_INTERVAL_MS == 2 * 1000,
{
}

} // verus!
