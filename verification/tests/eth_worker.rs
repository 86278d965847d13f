use sui_rules::config::Config;
use sui_rules::eth_address::EthAddress;
use sui_rules::eth_stream::StreamAction;
use sui_rules::eth_worker::{
    setup_error, EthBridgeWorker, EthRun, RunAction, StreamStart, WorkerError, POLL_INTERVAL_MS,
};
use sui_rules::startup::{metrics_address, start_processing_sui_checkpoints};

const BRIDGE: &str = "0x00112233445566778899aAbBcCdDeEfF01020304";

const BRIDGE_BYTES: [u8; 20] = [
    0x00, 0x11, 0x22, 0x33, 0x44, 0x55, 0x66, 0x77, 0x88, 0x99, 0xaa, 0xbb, 0xcc, 0xdd, 0xee, 0xff,
    0x01, 0x02, 0x03, 0x04,
];

fn config(bridge: &str) -> Config {
    Config {
        remote_store_url: "https://checkpoints.example".to_string(),
        eth_rpc_url: "http://eth.example".to_string(),
        db_url: "postgres://db.example/bridge".to_string(),
        progress_store_file: "/tmp/progress".to_string(),
        checkpoints_path: "/tmp/checkpoints".to_string(),
        concurrency: 16,
        eth_sui_bridge_contract_address: bridge.to_string(),
        start_block: 5_000,
        metric_url: "127.0.0.1".to_string(),
        metric_port: 9184,
    }
}

fn address() -> EthAddress {
    EthAddress { bytes: BRIDGE_BYTES }
}

#[test]
fn addresses_are_forty_digits() {
    let digits = "00112233445566778899aabbccddeeff01020304";
    for text in [
        digits.to_string(),
        digits.to_uppercase(),
        format!("0x{}", digits),
        format!(" {}\n", digits),
        format!("0x {}\t{}\r{}", &digits[..1], &digits[1..20], &digits[20..]),
    ] {
        assert_eq!(EthAddress::parse(&text), Ok(address()), "{:?}", text);
    }
}

#[test]
fn other_texts_are_no_addresses() {
    let digits = "00112233445566778899aabbccddeeff01020304";
    for text in [
        "".to_string(),
        "0x".to_string(),
        digits[1..].to_string(),
        digits[2..].to_string(),
        format!("{}0", digits),
        format!("{}00", digits),
        format!("0X{}", digits),
        format!("0x0x{}", digits),
        format!(" 0x{}", digits),
        format!("{}g", digits),
        format!("{}é", &digits[..38]),
    ] {
        assert!(EthAddress::parse(&text).is_err(), "{:?}", text);
    }
}

#[test]
fn rejected_addresses_come_with_a_reason() {
    assert_eq!(EthAddress::parse("0x00"), Err("Invalid input length".to_string()));
    assert_eq!(
        EthAddress::parse("0x0g"),
        Err("Invalid character 'g' at position 1".to_string())
    );
}

#[test]
fn stray_characters_are_named_with_their_position() {
    let stray = |c: &str, position: u64| {
        Err(format!("Invalid character '{}' at position {}", c, position))
    };
    let length = || Err("Invalid input length".to_string());
    let digits = &BRIDGE[2..];
    assert_eq!(EthAddress::parse("zy"), stray("z", 0));
    assert_eq!(EthAddress::parse("0X00"), stray("X", 1));
    assert_eq!(EthAddress::parse("0x 1\t2\r\n3é4"), stray("é", 7));
    assert_eq!(EthAddress::parse("0x1 2"), length());
    assert_eq!(EthAddress::parse(""), length());
    assert_eq!(EthAddress::parse(&format!("0x{}!{}", &digits[..39], digits)), stray("!", 39));
    assert_eq!(EthAddress::parse(&format!("0x{}!", digits)), length());
    assert_eq!(EthAddress::parse(&format!("0x{}0!", digits)), length());
}

#[test]
fn workers_follow_the_configured_contract() {
    let worker = EthBridgeWorker::new(config(BRIDGE));
    assert_eq!(worker.bridge_address, address());
    assert_eq!(worker.config, config(BRIDGE));
    assert_eq!(EthBridgeWorker::try_new(config(BRIDGE)), Ok(worker));
    assert_eq!(POLL_INTERVAL_MS, 2000);
}

#[test]
fn workers_need_a_contract_address() {
    let mut config = config("0x12");
    config.eth_rpc_url = "nowhere".to_string();
    let error = EthBridgeWorker::try_new(config).unwrap_err();
    assert_eq!(
        error,
        WorkerError::InvalidAddress { reason: "Invalid input length".to_string() }
    );
    assert_eq!(error.message(), "Invalid Ethereum address: Invalid input length");
}

#[test]
fn workers_need_a_node() {
    let mut config = config(BRIDGE);
    config.eth_rpc_url = "nowhere".to_string();
    let error = EthBridgeWorker::try_new(config).unwrap_err();
    assert_eq!(error, WorkerError::NoHttpProvider { url: "nowhere".to_string() });
    assert_eq!(error.message(), "Cannot create Ethereum HTTP provider, URL: nowhere");
}

#[test]
fn the_contract_is_looked_at_before_the_node() {
    let url = "nowhere".to_string();
    let bad = || Err("bad".to_string());
    let invalid = Some(WorkerError::InvalidAddress { reason: "bad".to_string() });
    assert_eq!(setup_error(bad(), false, &url), invalid);
    assert_eq!(setup_error(bad(), true, &url), invalid);
    assert_eq!(
        setup_error(Ok(address()), false, &url),
        Some(WorkerError::NoHttpProvider { url: url.clone() })
    );
    assert_eq!(setup_error(Ok(address()), true, &url), None);
}

#[test]
fn streams_start_at_the_newest_record() {
    let worker = EthBridgeWorker::new(config(BRIDGE));
    assert_eq!(
        worker.start_processing_finalized_eth_events(Some(6_000)),
        StreamStart { finalized: true, contract: address(), block: 6_000 }
    );
    assert_eq!(
        worker.start_processing_unfinalized_eth_events(Some(7_000)),
        StreamStart { finalized: false, contract: address(), block: 7_000 }
    );
    assert_eq!(worker.start_processing_finalized_eth_events(Some(-1)).block, u64::MAX);
    assert_eq!(worker.start_processing_finalized_eth_events(Some(i64::MIN)).block, 1 << 63);
}

#[test]
fn streams_start_at_the_configured_block_without_a_record() {
    let worker = EthBridgeWorker::new(config(BRIDGE));
    assert_eq!(
        worker.start_processing_finalized_eth_events(None),
        StreamStart { finalized: true, contract: address(), block: 5_000 }
    );
    assert_eq!(
        worker.start_processing_unfinalized_eth_events(None),
        StreamStart { finalized: false, contract: address(), block: 5_000 }
    );
}

fn started() -> EthRun<String> {
    let mut node = config(BRIDGE);
    node.eth_rpc_url = "http://other.example".to_string();
    node.start_block = 1;
    EthBridgeWorker::new(config(BRIDGE)).run(&node)
}

#[test]
fn the_finalized_stream_comes_first() {
    let run = started();
    match run.action() {
        RunAction::Connect { rpc_url, contract } => {
            assert_eq!(rpc_url, "http://other.example");
            assert_eq!(contract, address());
        }
        other => panic!("{:?}", other),
    }
    let run = run.on_connect(Ok(()));
    assert!(matches!(run.action(), RunAction::ReadLatest { finalized: true }));
    let run = run.on_latest(Ok(None));
    match run.action() {
        RunAction::StartStream { start } => assert_eq!(
            start,
            StreamStart { finalized: true, contract: address(), block: 5_000 }
        ),
        other => panic!("{:?}", other),
    }
    let run = run.on_start(true);
    assert!(matches!(run.action(), RunAction::ReadLatest { finalized: false }));
    let run = run.on_latest(Ok(Some(8_000)));
    match run.action() {
        RunAction::StartStream { start } => assert_eq!(
            start,
            StreamStart { finalized: false, contract: address(), block: 8_000 }
        ),
        other => panic!("{:?}", other),
    }
    let run = run.on_start(true);
    assert!(matches!(run.action(), RunAction::Settle));
    assert_eq!(run.outcome(), Ok(()));
}

#[test]
fn errors_end_the_setting_up() {
    let run = started().on_connect(Err("refused".to_string()));
    assert!(matches!(run.action(), RunAction::Settle));
    assert_eq!(run.outcome(), Err("refused".to_string()));
    let run = started().on_connect(Ok(())).on_latest(Err("no database".to_string()));
    assert!(matches!(run.action(), RunAction::Settle));
    assert_eq!(run.outcome(), Err("no database".to_string()));
}

#[test]
fn streams_that_do_not_start_stop_the_worker() {
    let run = started().on_connect(Ok(())).on_latest(Ok(None)).on_start(false);
    assert!(matches!(run.action(), RunAction::Abort));
}

#[test]
fn processing_begins_with_a_batch() {
    let worker = EthBridgeWorker::new(config(BRIDGE));
    assert!(matches!(worker.process_eth_events(true).action(), StreamAction::ReceiveBatch));
}

#[test]
fn metrics_are_served_at_host_and_port() {
    let mut config = config(BRIDGE);
    assert_eq!(metrics_address(&config), "127.0.0.1:9184");
    for (port, text) in [(0, "h:0"), (9, "h:9"), (10, "h:10"), (1020, "h:1020"), (65535, "h:65535")]
    {
        config.metric_url = "h".to_string();
        config.metric_port = port;
        assert_eq!(metrics_address(&config), text);
    }
}

#[test]
fn checkpoints_are_ingested_as_configured() {
    let ingestion = start_processing_sui_checkpoints(&config(BRIDGE));
    assert_eq!(ingestion.progress_store_file, "/tmp/progress");
    assert_eq!(ingestion.workflow_types, 1);
    assert_eq!(ingestion.db_url, "postgres://db.example/bridge");
    assert_eq!(ingestion.worker_name, "bridge worker");
    assert_eq!(ingestion.concurrency, 16);
    assert_eq!(ingestion.checkpoints_path, "/tmp/checkpoints");
    assert_eq!(ingestion.remote_store_url, Some("https://checkpoints.example".to_string()));
}
