use sui_rules::eth_address::EthAddress;
use sui_rules::eth_event::{
    EthBridgeEvent, EthLog, EthSuiBridgeEvents, TokensClaimed, TokensDeposited,
};
use sui_rules::eth_stream::{EthEventStream, StreamAbort, StreamAction};
use sui_rules::transfer::{
    BridgeDataSource, TokenTransfer, TokenTransferData, TokenTransferStatus,
};
use sui_rules::u256::U256;

fn number(n: u64) -> U256 {
    U256 { words: [n, 0, 0, 0] }
}

fn deposit(nonce: u64) -> EthBridgeEvent {
    EthBridgeEvent::EthSuiBridgeEvents(EthSuiBridgeEvents::TokensDepositedFilter(
        TokensDeposited {
            source_chain_id: 11,
            nonce,
            destination_chain_id: 2,
            token_id: 3,
            sui_adjusted_amount: 4_000,
            sender_address: EthAddress { bytes: [5; 20] },
            recipient_address: vec![6; 32],
        },
    ))
}

fn claim(nonce: u64) -> EthBridgeEvent {
    EthBridgeEvent::EthSuiBridgeEvents(EthSuiBridgeEvents::TokensClaimedFilter(TokensClaimed {
        source_chain_id: 2,
        nonce,
        sender_address: vec![7; 32],
    }))
}

fn log(block_number: u64, event: Option<EthBridgeEvent>) -> EthLog {
    EthLog { block_number, tx_hash: [block_number as u8; 32], event }
}

fn deposit_record(nonce: u64, block: u64, status: TokenTransferStatus) -> TokenTransfer {
    TokenTransfer {
        chain_id: 11,
        nonce,
        block_height: block,
        timestamp_ms: block * 12 * 1000,
        txn_hash: vec![block as u8; 32],
        txn_sender: vec![5; 20],
        status,
        gas_usage: 21_000 + block as i64,
        data_source: BridgeDataSource::Eth,
        data: Some(TokenTransferData {
            sender_address: vec![5; 20],
            destination_chain: 2,
            recipient_address: vec![6; 32],
            token_id: 3,
            amount: 4_000,
        }),
    }
}

fn claim_record(nonce: u64, block: u64) -> TokenTransfer {
    TokenTransfer {
        chain_id: 2,
        nonce,
        block_height: block,
        timestamp_ms: block * 12 * 1000,
        txn_hash: vec![block as u8; 32],
        txn_sender: vec![7; 32],
        status: TokenTransferStatus::Claimed,
        gas_usage: 21_000 + block as i64,
        data_source: BridgeDataSource::Eth,
        data: None,
    }
}

/// Processes a batch on a chain with a block every twelve seconds. Returns the stream at the
/// end of the batch, what was written, and the blocks and transactions that were fetched.
fn process(
    stream: EthEventStream,
    batch: Vec<EthLog>,
) -> (EthEventStream, Vec<TokenTransfer>, Vec<u64>, Vec<u8>) {
    process_up_to(stream, batch, u64::MAX)
}

/// Processes a batch on such a chain, which has no blocks from `height` on.
fn process_up_to(
    stream: EthEventStream,
    batch: Vec<EthLog>,
    height: u64,
) -> (EthEventStream, Vec<TokenTransfer>, Vec<u64>, Vec<u8>) {
    let mut stream = stream.on_batch(Some(batch));
    let mut written = vec![];
    let mut blocks = vec![];
    let mut transactions = vec![];
    loop {
        enum Step {
            Block(u64),
            Transaction(u8),
            Write,
        }
        let step = match stream.action() {
            StreamAction::ReceiveBatch | StreamAction::Abort { .. } => {
                return (stream, written, blocks, transactions);
            }
            StreamAction::FetchBlock { number } => Step::Block(number),
            StreamAction::FetchTransaction { hash } => Step::Transaction(hash[0]),
            StreamAction::Write { transfer } => {
                written.push(transfer.clone());
                Step::Write
            }
        };
        stream = match step {
            Step::Block(n) => {
                blocks.push(n);
                stream.on_block(if n < height { Some(number(n * 12)) } else { None })
            }
            Step::Transaction(h) => {
                transactions.push(h);
                stream.on_transaction(Some(number(21_000 + h as u64)))
            }
            Step::Write => stream.on_write(),
        };
    }
}

fn reason(stream: &EthEventStream) -> Option<StreamAbort> {
    match stream.action() {
        StreamAction::Abort { reason } => Some(reason),
        _ => None,
    }
}

fn mixed_batch() -> Vec<EthLog> {
    vec![
        log(1, None),
        log(2, Some(deposit(100))),
        log(3, Some(EthBridgeEvent::EthSuiBridgeEvents(EthSuiBridgeEvents::PausedFilter))),
        log(4, Some(claim(200))),
        log(5, Some(EthBridgeEvent::EthBridgeLimiterEvents)),
        log(6, None),
        log(7, Some(deposit(101))),
        log(8, None),
    ]
}

#[test]
fn finalized_streams_write_deposits() {
    let (stream, written, blocks, transactions) =
        process(EthEventStream::new(true), mixed_batch());
    assert_eq!(
        written,
        vec![
            deposit_record(100, 2, TokenTransferStatus::Deposited),
            deposit_record(101, 7, TokenTransferStatus::Deposited),
        ]
    );
    assert_eq!(blocks, vec![2, 3, 4, 5, 7]);
    assert_eq!(transactions, vec![2, 3, 4, 5, 7]);
    assert!(matches!(stream.action(), StreamAction::ReceiveBatch));
}

#[test]
fn unfinalized_streams_write_deposits_and_claims() {
    let (stream, written, _, _) = process(EthEventStream::new(false), mixed_batch());
    assert_eq!(
        written,
        vec![
            deposit_record(100, 2, TokenTransferStatus::DepositedUnfinalized),
            claim_record(200, 4),
            deposit_record(101, 7, TokenTransferStatus::DepositedUnfinalized),
        ]
    );
    assert!(matches!(stream.action(), StreamAction::ReceiveBatch));
}

#[test]
fn batches_follow_one_another() {
    let (stream, first, _, _) =
        process(EthEventStream::new(true), vec![log(2, Some(deposit(1)))]);
    let (stream, empty, _, _) = process(stream, vec![]);
    let (_, second, _, _) = process(stream, vec![log(9, Some(deposit(2)))]);
    assert_eq!(first, vec![deposit_record(1, 2, TokenTransferStatus::Deposited)]);
    assert_eq!(empty, vec![]);
    assert_eq!(second, vec![deposit_record(2, 9, TokenTransferStatus::Deposited)]);
}

#[test]
fn batches_write_what_one_batch_of_all_entries_writes() {
    for finalized in [true, false] {
        for cut in 0..=mixed_batch().len() {
            let mut first = mixed_batch();
            let second = first.split_off(cut);
            let (stream, mut written, _, _) = process(EthEventStream::new(finalized), first);
            let (_, rest, _, _) = process(stream, second);
            written.extend(rest);
            assert_eq!(written, process(EthEventStream::new(finalized), mixed_batch()).1);
        }
    }
}

#[test]
fn a_stop_keeps_what_came_before() {
    let (stream, first, _, _) =
        process_up_to(EthEventStream::new(false), vec![log(2, Some(deposit(1)))], 7);
    let (stream, second, blocks, transactions) = process_up_to(stream, mixed_batch(), 7);
    assert_eq!(first, vec![deposit_record(1, 2, TokenTransferStatus::DepositedUnfinalized)]);
    assert_eq!(
        second,
        vec![
            deposit_record(100, 2, TokenTransferStatus::DepositedUnfinalized),
            claim_record(200, 4),
        ]
    );
    assert_eq!(blocks, vec![2, 3, 4, 5, 7]);
    assert_eq!(transactions, vec![2, 3, 4, 5]);
    assert_eq!(reason(&stream), Some(StreamAbort::BlockUnavailable));
}

#[test]
fn no_other_event_is_recorded() {
    let events = vec![
        EthBridgeEvent::EthSuiBridgeEvents(EthSuiBridgeEvents::PausedFilter),
        EthBridgeEvent::EthSuiBridgeEvents(EthSuiBridgeEvents::UnpausedFilter),
        EthBridgeEvent::EthSuiBridgeEvents(EthSuiBridgeEvents::UpgradedFilter),
        EthBridgeEvent::EthSuiBridgeEvents(EthSuiBridgeEvents::InitializedFilter),
        EthBridgeEvent::EthBridgeCommitteeEvents,
        EthBridgeEvent::EthBridgeLimiterEvents,
        EthBridgeEvent::EthBridgeConfigEvents,
        EthBridgeEvent::EthCommitteeUpgradeableContractEvents,
    ];
    for event in events {
        for finalized in [true, false] {
            assert!(!event.is_recorded(finalized));
            assert_eq!(
                event.token_transfer(finalized, 1, 2, &[3; 32], &U256 { words: [u64::MAX; 4] }),
                None
            );
        }
    }
    assert!(deposit(1).is_recorded(true) && deposit(1).is_recorded(false));
    assert!(!claim(1).is_recorded(true) && claim(1).is_recorded(false));
}

#[test]
fn gas_is_kept_in_signed_form() {
    let gas = |n: u64| {
        deposit(1).token_transfer(true, 1, 2, &[3; 32], &number(n)).unwrap().gas_usage
    };
    assert_eq!(gas(0), 0);
    assert_eq!(gas(i64::MAX as u64), i64::MAX);
    assert_eq!(gas(1 << 63), i64::MIN);
    assert_eq!(gas(u64::MAX), -1);
}

#[test]
fn numbers_fit_in_a_word_or_not() {
    assert!(number(u64::MAX).fits_u64());
    assert_eq!(number(77).as_u64(), 77);
    assert!(!U256 { words: [0, 1, 0, 0] }.fits_u64());
    assert!(!U256 { words: [0, 0, 1, 0] }.fits_u64());
    assert!(!U256 { words: [0, 0, 0, 1] }.fits_u64());
}

fn at_block(finalized: bool, event: EthBridgeEvent) -> EthEventStream {
    EthEventStream::new(finalized).on_batch(Some(vec![log(2, Some(event))]))
}

#[test]
fn streams_stop_where_they_end() {
    let stream = EthEventStream::new(true).on_batch(None);
    assert_eq!(reason(&stream), Some(StreamAbort::StreamEnded));
}

#[test]
fn streams_stop_without_the_block() {
    let stream = at_block(true, deposit(1)).on_block(None);
    assert_eq!(reason(&stream), Some(StreamAbort::BlockUnavailable));
}

#[test]
fn streams_stop_at_times_out_of_range() {
    let limit = u64::MAX / 1000;
    let stream = at_block(true, deposit(1)).on_block(Some(number(limit)));
    assert!(matches!(stream.action(), StreamAction::FetchTransaction { .. }));
    let stream = stream.on_transaction(Some(number(1)));
    match stream.action() {
        StreamAction::Write { transfer } => {
            assert_eq!(transfer.timestamp_ms, 18_446_744_073_709_551_000);
        }
        other => panic!("{:?}", other),
    }
    let stream = at_block(true, deposit(1)).on_block(Some(number(limit + 1)));
    assert_eq!(reason(&stream), Some(StreamAbort::TimestampOverflow));
    let stream = at_block(true, deposit(1)).on_block(Some(U256 { words: [1, 0, 1, 0] }));
    assert_eq!(reason(&stream), Some(StreamAbort::TimestampOverflow));
}

#[test]
fn streams_stop_without_the_transaction() {
    let stream = at_block(true, claim(1)).on_block(Some(number(1))).on_transaction(None);
    assert_eq!(reason(&stream), Some(StreamAbort::TransactionUnavailable));
}

#[test]
fn streams_stop_at_gas_out_of_range_only_where_it_is_recorded() {
    let huge = U256 { words: [0, 1, 0, 0] };
    let stream = at_block(true, deposit(1)).on_block(Some(number(1))).on_transaction(Some(huge));
    assert_eq!(reason(&stream), Some(StreamAbort::GasOverflow));
    let stream = at_block(true, claim(1)).on_block(Some(number(1))).on_transaction(Some(huge));
    assert_eq!(reason(&stream), None);
    assert!(matches!(stream.action(), StreamAction::ReceiveBatch));
}
