//! How the log entries of the bridge contracts become records of the index.
//!
//! [`EthEventStream`] decides; it names one [`StreamAction`] at a time, and whoever runs it
//! performs the action and hands the outcome back.
use vstd::prelude::*;
use crate::eth_event::EthLog;
use crate::transfer::TokenTransfer;
use crate::u256::U256;
use crate::transfer::TokenTransferView;
#[allow(unused_imports)]
use crate::eth_event::EthSuiBridgeEvents;
#[allow(unused_imports)]
use crate::transfer::{BridgeDataSource, TokenTransferStatus};

verus! {

/// Why the processing of a stream stops for good.
#[derive(Clone, Copy, Debug, PartialEq, Eq, Structural)]
pub enum StreamAbort {
    /// The stream of log entries ended.
    StreamEnded,
    /// The block of a log entry cannot be had.
    BlockUnavailable,
    /// The time of a block, in milliseconds, does not fit in 64 bits.
    TimestampOverflow,
    /// The transaction of a log entry cannot be had.
    TransactionUnavailable,
    /// The gas of a recorded transaction does not fit in 64 bits.
    GasOverflow,
}

/// What the processing waits for.
#[derive(Debug)]
enum StreamPhase {
    Batch,
    Block,
    Transaction { timestamp_ms: u64 },
    Write { transfer: TokenTransfer },
    Aborted { reason: StreamAbort },
}

/// What has to be done next.
#[derive(Debug)]
pub enum StreamAction<'a> {
    /// Receive the next batch of log entries.
    ReceiveBatch,
    /// Fetch a block by its number.
    FetchBlock { number: u64 },
    /// Fetch a transaction by its hash.
    FetchTransaction { hash: &'a [u8; 32] },
    /// Write a record to the index.
    Write { transfer: &'a TokenTransfer },
    /// Stop.
    Abort { reason: StreamAbort },
}

/// The processing of one stream of log entries, finalized or not.
#[derive(Debug)]
pub struct EthEventStream {
    finalized: bool,
    logs: Vec<EthLog>,
    next: usize,
    phase: StreamPhase,
}

/// What a stream waits for, as contracts speak of it.
pub enum PhaseView {
    Batch,
    Block,
    Transaction { timestamp_ms: u64 },
    Write { transfer: TokenTransferView },
    Aborted { reason: StreamAbort },
}

/// The state of a stream, as contracts speak of it: the current batch, the entry of it that is
/// being processed, and what is waited for.
#[verifier::ext_equal]
pub struct StreamView {
    pub finalized: bool,
    pub logs: Seq<EthLog>,
    pub next: int,
    pub phase: PhaseView,
}

impl View for EthEventStream {
    type V = StreamView;

    closed spec fn view(&self) -> StreamView {
        StreamView {
            finalized: self.finalized,
            logs: self.logs@,
            next: self.next as int,
            phase: match self.phase {
                StreamPhase::Batch => PhaseView::Batch,
                StreamPhase::Block => PhaseView::Block,
                StreamPhase::Transaction { timestamp_ms } => PhaseView::Transaction {
                    timestamp_ms,
                },
                StreamPhase::Write { transfer } => PhaseView::Write { transfer: transfer@ },
                StreamPhase::Aborted { reason } => PhaseView::Aborted { reason },
            },
        }
    }
}

/// The first entry from `from` on that decodes to an event; the length of the batch if there is
/// none.
pub open spec fn next_decoded(logs: Seq<EthLog>, from: int) -> int
    decreases logs.len() - from,
{
    if from >= logs.len() {
        logs.len() as int
    } else if logs[from].event is Some {
        from
    } else {
        next_decoded(logs, from + 1)
    }
}

/// The time of a block in milliseconds.
pub open spec fn timestamp_ms(seconds: nat) -> nat {
    seconds * 1000
}

impl StreamView {
    /// In the middle of a batch, the current entry is one that decodes to an event.
    pub open spec fn valid(self) -> bool {
        match self.phase {
            PhaseView::Block | PhaseView::Transaction { .. } | PhaseView::Write { .. } => {
                &&& 0 <= self.next < self.logs.len()
                &&& self.logs[self.next].event is Some
            },
            _ => true,
        }
    }

    /// Whether `action` is what has to be done next.
    pub open spec fn asks_for(self, action: StreamAction<'_>) -> bool {
        match self.phase {
            PhaseView::Batch => action is ReceiveBatch,
            PhaseView::Block => action matches StreamAction::FetchBlock { number } && number
                == self.logs[self.next].block_number,
            PhaseView::Transaction { .. } => action matches StreamAction::FetchTransaction { hash }
                && hash@ == self.logs[self.next].tx_hash@,
            PhaseView::Write { transfer } => action matches StreamAction::Write { transfer: t }
                && t@ == transfer,
            PhaseView::Aborted { reason } => action matches StreamAction::Abort { reason: r } && r
                == reason,
        }
    }

    /// A stream that has seen nothing.
    pub open spec fn start(finalized: bool) -> StreamView {
        StreamView { finalized, logs: Seq::empty(), next: 0, phase: PhaseView::Batch }
    }

    /// The processing goes on with the entry `from`; entries that decode to no event are passed
    /// over.
    pub open spec fn resume(self, from: int) -> StreamView {
        let next = next_decoded(self.logs, from);
        StreamView {
            next,
            phase: if next < self.logs.len() {
                PhaseView::Block
            } else {
                PhaseView::Batch
            },
            ..self
        }
    }

    /// The processing stops.
    pub open spec fn abort(self, reason: StreamAbort) -> StreamView {
        StreamView { phase: PhaseView::Aborted { reason }, ..self }
    }

    /// A batch was received, or the stream ended.
    pub open spec fn after_batch(self, batch: Option<Seq<EthLog>>) -> StreamView {
        match batch {
            Some(logs) => (StreamView { logs, ..self }).resume(0),
            None => self.abort(StreamAbort::StreamEnded),
        }
    }

    /// A block of the time `seconds` was fetched, or could not be.
    pub open spec fn after_block(self, seconds: Option<nat>) -> StreamView {
        match seconds {
            Some(s) => if timestamp_ms(s) <= u64::MAX {
                StreamView {
                    phase: PhaseView::Transaction { timestamp_ms: timestamp_ms(s) as u64 },
                    ..self
                }
            } else {
                self.abort(StreamAbort::TimestampOverflow)
            },
            None => self.abort(StreamAbort::BlockUnavailable),
        }
    }

    /// The record of the current entry, with the gas of its transaction.
    pub open spec fn current_record(self, gas: nat) -> Option<TokenTransferView> {
        crate::eth_event::transfer_of(
            self.logs[self.next].event->0,
            self.finalized,
            self.logs[self.next].block_number,
            self.phase->Transaction_timestamp_ms,
            self.logs[self.next].tx_hash@,
            gas,
        )
    }

    /// A transaction of the gas `gas` was fetched, or could not be.
    pub open spec fn after_transaction(self, gas: Option<nat>) -> StreamView {
        match gas {
            Some(g) => match self.current_record(g) {
                Some(transfer) => if g <= u64::MAX {
                    StreamView { phase: PhaseView::Write { transfer }, ..self }
                } else {
                    self.abort(StreamAbort::GasOverflow)
                },
                None => self.resume(self.next + 1),
            },
            None => self.abort(StreamAbort::TransactionUnavailable),
        }
    }

    /// A record was written, or could not be: the processing goes on either way.
    pub open spec fn after_write(self) -> StreamView {
        self.resume(self.next + 1)
    }
}

/// The view of an optional number.
pub open spec fn number_view(n: Option<U256>) -> Option<nat> {
    match n {
        Some(n) => Some(n.value()),
        None => None,
    }
}

impl EthEventStream {
    #[verifier::type_invariant]
    spec fn valid(self) -> bool {
        match self.phase {
            StreamPhase::Block | StreamPhase::Transaction { .. } | StreamPhase::Write { .. } => {
                &&& self.next < self.logs.len()
                &&& self.logs@[self.next as int].event is Some
            },
            _ => true,
        }
    }

    /// A stream that has seen nothing yet.
    pub fn new(finalized: bool) -> (stream: Self)
        ensures
            stream@ == StreamView::start(finalized),
    {
        let stream = EthEventStream {
            finalized,
            logs: Vec::new(),
            next: 0,
            phase: StreamPhase::Batch,
        };
        assert(stream@.logs =~= Seq::empty());
        stream
    }

    /// What has to be done next.
    pub fn action(&self) -> (action: StreamAction<'_>)
        ensures
            self@.valid(),
            self@.asks_for(action),
    {
        proof {
            use_type_invariant(self);
        }
        match &self.phase {
            StreamPhase::Batch => StreamAction::ReceiveBatch,
            StreamPhase::Block => StreamAction::FetchBlock {
                number: self.logs[self.next].block_number,
            },
            StreamPhase::Transaction { timestamp_ms: _ } => StreamAction::FetchTransaction {
                hash: &self.logs[self.next].tx_hash,
            },
            StreamPhase::Write { transfer } => StreamAction::Write { transfer },
            StreamPhase::Aborted { reason } => StreamAction::Abort { reason: *reason },
        }
    }

    /// Goes on with the entry `from` of `logs`.
    fn resume(finalized: bool, logs: Vec<EthLog>, from: usize) -> (stream: Self)
        requires
            from <= logs@.len(),
        ensures
            forall|s: StreamView|
                s.finalized == finalized && s.logs == logs@ ==> stream@ == #[trigger] s.resume(
                    from as int,
                ),
    {
        let mut next: usize = from;
        while next < logs.len() && logs[next].event.is_none()
            invariant
                from <= next <= logs@.len(),
                next_decoded(logs@, from as int) == next_decoded(logs@, next as int),
            decreases logs@.len() - next,
        {
            next += 1;
        }
        let phase = if next < logs.len() {
            StreamPhase::Block
        } else {
            StreamPhase::Batch
        };
        EthEventStream { finalized, logs, next, phase }
    }

    /// Takes the next batch of log entries, or `None` where the stream has ended.
    pub fn on_batch(self, batch: Option<Vec<EthLog>>) -> (stream: Self)
        requires
            self@.phase is Batch,
        ensures
            stream@ == self@.after_batch(
                match batch {
                    Some(logs) => Some(logs@),
                    None => None,
                },
            ),
    {
        match batch {
            Some(logs) => {
                let ghost received = StreamView { logs: logs@, ..self@ };
                let stream = EthEventStream::resume(self.finalized, logs, 0);
                assert(stream@ == received.resume(0));
                stream
            },
            None => EthEventStream {
                finalized: self.finalized,
                logs: self.logs,
                next: self.next,
                phase: StreamPhase::Aborted { reason: StreamAbort::StreamEnded },
            },
        }
    }

    /// Takes the time, in seconds, of the block that was asked for, or `None` where the block
    /// could not be had.
    pub fn on_block(self, timestamp: Option<U256>) -> (stream: Self)
        requires
            self@.phase is Block,
        ensures
            stream@ == self@.after_block(number_view(timestamp)),
    {
        proof {
            use_type_invariant(&self);
        }
        let phase = match timestamp {
            Some(seconds) => {
                if !seconds.fits_u64() {
                    StreamPhase::Aborted { reason: StreamAbort::TimestampOverflow }
                } else {
                    match seconds.as_u64().checked_mul(1000) {
                        Some(timestamp_ms) => StreamPhase::Transaction { timestamp_ms },
                        None => StreamPhase::Aborted { reason: StreamAbort::TimestampOverflow },
                    }
                }
            },
            None => StreamPhase::Aborted { reason: StreamAbort::BlockUnavailable },
        };
        EthEventStream { finalized: self.finalized, logs: self.logs, next: self.next, phase }
    }

    /// Takes the gas of the transaction that was asked for, or `None` where the transaction
    /// could not be had.
    pub fn on_transaction(self, gas: Option<U256>) -> (stream: Self)
        requires
            self@.phase is Transaction,
        ensures
            stream@ == self@.after_transaction(number_view(gas)),
    {
        proof {
            use_type_invariant(&self);
        }
        let timestamp_ms: u64 = match &self.phase {
            StreamPhase::Transaction { timestamp_ms } => *timestamp_ms,
            _ => vstd::pervasive::unreached(),
        };
        let phase = match &gas {
            None => StreamPhase::Aborted { reason: StreamAbort::TransactionUnavailable },
            Some(units) => match &self.logs[self.next].event {
                None => vstd::pervasive::unreached(),
                Some(event) => {
                    if event.is_recorded(self.finalized) && !units.fits_u64() {
                        StreamPhase::Aborted { reason: StreamAbort::GasOverflow }
                    } else {
                        match event.token_transfer(
                            self.finalized,
                            self.logs[self.next].block_number,
                            timestamp_ms,
                            &self.logs[self.next].tx_hash,
                            units,
                        ) {
                            Some(transfer) => StreamPhase::Write { transfer },
                            None => {
                                return EthEventStream::resume(
                                    self.finalized,
                                    self.logs,
                                    self.next + 1,
                                );
                            },
                        }
                    }
                },
            },
        };
        EthEventStream { finalized: self.finalized, logs: self.logs, next: self.next, phase }
    }

    /// Takes notice that the record was dealt with. Whether it was written makes no difference
    /// to what follows.
    pub fn on_write(self) -> (stream: Self)
        requires
            self@.phase is Write,
        ensures
            stream@ == self@.after_write(),
    {
        proof {
            use_type_invariant(&self);
        }
        EthEventStream::resume(self.finalized, self.logs, self.next + 1)
    }
}

/// A chain, as far as the processing asks it: the time of each block in seconds, by number, and
/// the gas of each transaction, by hash, where they can be had.
pub struct ChainView {
    pub seconds: spec_fn(u64) -> Option<nat>,
    pub gas: spec_fn(Seq<u8>) -> Option<nat>,
}

impl ChainView {
    /// Why the processing stops at a log entry, if it does. It never stops at one that decodes to
    /// no event.
    pub open spec fn failure(self, finalized: bool, log: EthLog) -> Option<StreamAbort> {
        match (log.event, (self.seconds)(log.block_number), (self.gas)(log.tx_hash@)) {
            (None, _, _) => None,
            (Some(_), None, _) => Some(StreamAbort::BlockUnavailable),
            (Some(event), Some(seconds), gas) => if timestamp_ms(seconds) > u64::MAX {
                Some(StreamAbort::TimestampOverflow)
            } else {
                match gas {
                    None => Some(StreamAbort::TransactionUnavailable),
                    Some(units) => if crate::eth_event::is_recorded(event, finalized) && units
                        > u64::MAX {
                        Some(StreamAbort::GasOverflow)
                    } else {
                        None
                    },
                }
            },
        }
    }

    /// The record of a log entry at which the processing does not stop.
    pub open spec fn record(self, finalized: bool, log: EthLog) -> Option<TokenTransferView> {
        match log.event {
            Some(event) => crate::eth_event::transfer_of(
                event,
                finalized,
                log.block_number,
                timestamp_ms((self.seconds)(log.block_number)->0) as u64,
                log.tx_hash@,
                (self.gas)(log.tx_hash@)->0,
            ),
            None => None,
        }
    }

    /// The records of log entries, in the order of the entries.
    pub open spec fn records(self, finalized: bool, logs: Seq<EthLog>) -> Seq<TokenTransferView> {
        logs.filter_map(|log: EthLog| self.record(finalized, log))
    }

    /// The processing stops at none of the first `n` entries.
    pub open spec fn passes(self, finalized: bool, logs: Seq<EthLog>, n: int) -> bool {
        forall|i: int| 0 <= i < n ==> self.failure(finalized, #[trigger] logs[i]) is None
    }

    /// The processing stops at the entry `k` and at none before it.
    pub open spec fn stops_at(self, finalized: bool, logs: Seq<EthLog>, k: int) -> bool {
        &&& 0 <= k < logs.len()
        &&& self.passes(finalized, logs, k)
        &&& self.failure(finalized, logs[k]) is Some
    }
}

/// Runs a stream to the end of its batch, or to where it stops, every fetch answered by `chain`.
/// Returns the records handed to the index, those of `written` first, and where the stream is.
pub open spec fn run_batch(
    s: StreamView,
    chain: ChainView,
    written: Seq<TokenTransferView>,
) -> (Seq<TokenTransferView>, StreamView)
    decreases
            s.logs.len() - s.next,
            match s.phase {
                PhaseView::Block => 3int,
                PhaseView::Transaction { .. } => 2int,
                PhaseView::Write { .. } => 1int,
                _ => 0int,
            },
    when s.valid()
    via run_batch_terminates
{
    match s.phase {
        PhaseView::Block => run_batch(
            s.after_block((chain.seconds)(s.logs[s.next].block_number)),
            chain,
            written,
        ),
        PhaseView::Transaction { .. } => run_batch(
            s.after_transaction((chain.gas)(s.logs[s.next].tx_hash@)),
            chain,
            written,
        ),
        PhaseView::Write { transfer } => run_batch(s.after_write(), chain, written.push(transfer)),
        _ => (written, s),
    }
}

/// Runs a stream through a sequence of batches, or to where it stops. Returns the records handed
/// to the index, those of `written` first, and where the stream is.
pub open spec fn run_batches(
    s: StreamView,
    batches: Seq<Seq<EthLog>>,
    chain: ChainView,
    written: Seq<TokenTransferView>,
) -> (Seq<TokenTransferView>, StreamView)
    decreases batches.len(),
{
    if batches.len() == 0 {
        (written, s)
    } else {
        let (written, s) = run_batch(s.after_batch(Some(batches.first())), chain, written);
        if s.phase is Batch {
            run_batches(s, batches.drop_first(), chain, written)
        } else {
            (written, s)
        }
    }
}

proof fn lemma_next_decoded(logs: Seq<EthLog>, from: int)
    requires
        0 <= from <= logs.len(),
    ensures
        from <= next_decoded(logs, from) <= logs.len(),
        next_decoded(logs, from) < logs.len() ==> logs[next_decoded(logs, from)].event is Some,
        forall|i: int| from <= i < next_decoded(logs, from) ==> #[trigger] logs[i].event is None,
    decreases logs.len() - from,
{
    if from < logs.len() && logs[from].event is None {
        lemma_next_decoded(logs, from + 1);
    }
}

#[via_fn]
proof fn run_batch_terminates(s: StreamView, chain: ChainView, written: Seq<TokenTransferView>) {
    if s.phase is Transaction || s.phase is Write {
        lemma_next_decoded(s.logs, s.next + 1);
    }
}

/// Entries that decode to no event add no record.
proof fn lemma_undecoded_add_nothing(
    logs: Seq<EthLog>,
    finalized: bool,
    chain: ChainView,
    from: int,
    to: int,
)
    requires
        0 <= from <= to <= logs.len(),
        forall|i: int| from <= i < to ==> #[trigger] logs[i].event is None,
    ensures
        chain.records(finalized, logs.take(from)) == chain.records(finalized, logs.take(to)),
    decreases to - from,
{
    if from < to {
        lemma_undecoded_add_nothing(logs, finalized, chain, from, to - 1);
        assert(logs.take(to).drop_last() =~= logs.take(to - 1));
        assert(logs.take(to).last() == logs[to - 1]);
    }
}

/// The records of entries and further entries are those of the one and then those of the other.
proof fn lemma_records_of_both(
    a: Seq<EthLog>,
    b: Seq<EthLog>,
    finalized: bool,
    chain: ChainView,
)
    ensures
        chain.records(finalized, a + b) == chain.records(finalized, a) + chain.records(
            finalized,
            b,
        ),
    decreases b.len(),
{
    if b.len() == 0 {
        assert(a + b =~= a);
        assert(chain.records(finalized, b) =~= Seq::empty());
        assert(chain.records(finalized, a) + Seq::empty() =~= chain.records(finalized, a));
    } else {
        lemma_records_of_both(a, b.drop_last(), finalized, chain);
        assert((a + b).drop_last() =~= a + b.drop_last());
        assert((a + b).last() == b.last());
        if let Some(t) = chain.record(finalized, b.last()) {
            let before = chain.records(finalized, a);
            let rest = chain.records(finalized, b.drop_last());
            assert(before + rest + seq![t] =~= before + (rest + seq![t]));
        }
    }
}

/// Where a batch ends up whose processing stops at the entry `end`, or at none.
spec fn batch_end(s: StreamView, chain: ChainView, end: int) -> StreamView {
    StreamView {
        next: end,
        phase: if end < s.logs.len() {
            PhaseView::Aborted { reason: chain.failure(s.finalized, s.logs[end])->0 }
        } else {
            PhaseView::Batch
        },
        ..s
    }
}

proof fn lemma_run_batch(
    s: StreamView,
    chain: ChainView,
    base: Seq<TokenTransferView>,
    written: Seq<TokenTransferView>,
    end: int,
)
    requires
        s.valid(),
        !(s.phase is Aborted),
        s.phase is Batch ==> s.next == s.logs.len(),
        end == s.logs.len() && chain.passes(s.finalized, s.logs, end) || chain.stops_at(
            s.finalized,
            s.logs,
            end,
        ),
        s.next <= end,
        s.phase matches PhaseView::Transaction { timestamp_ms: t } ==> {
            &&& (chain.seconds)(s.logs[s.next].block_number) matches Some(seconds)
            &&& t == timestamp_ms(seconds)
        },
        s.phase matches PhaseView::Write { transfer } ==> {
            &&& s.next < end
            &&& chain.record(s.finalized, s.logs[s.next]) == Some(transfer)
        },
        written == base + chain.records(s.finalized, s.logs.take(s.next)),
    ensures
        run_batch(s, chain, written) == (
            base + chain.records(s.finalized, s.logs.take(end)),
            batch_end(s, chain, end),
        ),
    decreases
            s.logs.len() - s.next,
            match s.phase {
                PhaseView::Block => 3int,
                PhaseView::Transaction { .. } => 2int,
                PhaseView::Write { .. } => 1int,
                _ => 0int,
            },
{
    reveal_with_fuel(run_batch, 2);
    if !(s.phase is Batch) {
        let log = s.logs[s.next];
        let after = s.logs.take(s.next + 1);
        assert(after.drop_last() =~= s.logs.take(s.next));
        assert(after.last() == log);
        lemma_next_decoded(s.logs, s.next + 1);
        let to = next_decoded(s.logs, s.next + 1);
        lemma_undecoded_add_nothing(s.logs, s.finalized, chain, s.next + 1, to);
        if s.next < end {
            assert(chain.failure(s.finalized, log) is None);
            assert(to <= end);
        }
        match s.phase {
            PhaseView::Block => {
                let t = s.after_block((chain.seconds)(log.block_number));
                if !(t.phase is Aborted) {
                    lemma_run_batch(t, chain, base, written, end);
                }
            },
            PhaseView::Transaction { .. } => {
                let t = s.after_transaction((chain.gas)(log.tx_hash@));
                if !(t.phase is Aborted) {
                    lemma_run_batch(t, chain, base, written, end);
                }
            },
            PhaseView::Write { transfer } => {
                let before = chain.records(s.finalized, s.logs.take(s.next));
                assert(written.push(transfer) =~= base + (before + seq![transfer]));
                lemma_run_batch(s.after_write(), chain, base, written.push(transfer), end);
            },
            _ => {},
        }
    }
}

proof fn lemma_run_received_batch(
    s: StreamView,
    logs: Seq<EthLog>,
    chain: ChainView,
    base: Seq<TokenTransferView>,
    end: int,
)
    requires
        end == logs.len() && chain.passes(s.finalized, logs, end) || chain.stops_at(
            s.finalized,
            logs,
            end,
        ),
    ensures
        run_batch(s.after_batch(Some(logs)), chain, base) == (
            base + chain.records(s.finalized, logs.take(end)),
            batch_end(StreamView { logs, ..s }, chain, end),
        ),
{
    lemma_next_decoded(logs, 0);
    let to = next_decoded(logs, 0);
    assert(to <= end);
    lemma_undecoded_add_nothing(logs, s.finalized, chain, 0, to);
    assert(chain.records(s.finalized, logs.take(0)) =~= Seq::empty());
    assert(base + Seq::empty() =~= base);
    lemma_run_batch(s.after_batch(Some(logs)), chain, base, base, end);
}

/// A batch at none of whose entries the processing stops is processed to its end, and what is
/// written are the records of its entries, each once, in the order of the entries, whatever the
/// stream had seen before.
pub proof fn law_batch_writes_its_records(s: StreamView, logs: Seq<EthLog>, chain: ChainView)
    requires
        s.phase is Batch,
        chain.passes(s.finalized, logs, logs.len() as int),
    ensures
        run_batch(s.after_batch(Some(logs)), chain, Seq::empty()) == (
            chain.records(s.finalized, logs),
            StreamView {
                finalized: s.finalized,
                logs,
                next: logs.len() as int,
                phase: PhaseView::Batch,
            },
        ),
{
    lemma_run_received_batch(s, logs, chain, Seq::empty(), logs.len() as int);
    assert(logs.take(logs.len() as int) =~= logs);
    assert(Seq::empty() + chain.records(s.finalized, logs) =~= chain.records(s.finalized, logs));
}

#[verifier::rlimit(40)]
proof fn lemma_run_batches(
    s: StreamView,
    batches: Seq<Seq<EthLog>>,
    chain: ChainView,
    base: Seq<TokenTransferView>,
    end: int,
)
    requires
        s.phase is Batch,
        end == batches.flatten().len() && chain.passes(s.finalized, batches.flatten(), end)
            || chain.stops_at(s.finalized, batches.flatten(), end),
    ensures
        ({
            let all = batches.flatten();
            let (written, t) = run_batches(s, batches, chain, base);
            &&& written == base + chain.records(s.finalized, all.take(end))
            &&& t.finalized == s.finalized
            &&& t.phase == if end < all.len() {
                PhaseView::Aborted { reason: chain.failure(s.finalized, all[end])->0 }
            } else {
                PhaseView::Batch
            }
        }),
    decreases batches.len(),
{
    let all = batches.flatten();
    if batches.len() == 0 {
        assert(chain.records(s.finalized, all.take(end)) =~= Seq::empty());
        assert(base + Seq::empty() =~= base);
    } else {
        let first = batches.first();
        let rest = batches.drop_first();
        assert(all =~= first + rest.flatten());
        assert(forall|i: int| 0 <= i < first.len() ==> #[trigger] first[i] == all[i]);
        assert(forall|i: int|
            0 <= i < rest.flatten().len() ==> #[trigger] rest.flatten()[i] == all[first.len() + i]);
        if end < first.len() {
            assert(chain.stops_at(s.finalized, first, end));
            lemma_run_received_batch(s, first, chain, base, end);
            assert(all.take(end) =~= first.take(end));
        } else {
            let n = first.len() as int;
            lemma_run_received_batch(s, first, chain, base, n);
            assert(first.take(n) =~= first);
            let t = batch_end(StreamView { logs: first, ..s }, chain, n);
            let written = base + chain.records(s.finalized, first);
            lemma_run_batches(t, rest, chain, written, end - n);
            let tail = rest.flatten().take(end - n);
            assert(all.take(end) =~= first + tail);
            lemma_records_of_both(first, tail, s.finalized, chain);
            assert(written + chain.records(s.finalized, tail) =~= base + (chain.records(
                s.finalized,
                first,
            ) + chain.records(s.finalized, tail)));
        }
    }
}

/// However the log entries come in batches, what is written are the records of all entries, each
/// once, in the order of the entries, as long as the processing stops at none; the stream then
/// waits for the next batch.
pub proof fn law_batches_write_the_records_of_all_entries(
    s: StreamView,
    batches: Seq<Seq<EthLog>>,
    chain: ChainView,
)
    requires
        s.phase is Batch,
        chain.passes(s.finalized, batches.flatten(), batches.flatten().len() as int),
    ensures
        run_batches(s, batches, chain, Seq::empty()).0 == chain.records(
            s.finalized,
            batches.flatten(),
        ),
        run_batches(s, batches, chain, Seq::empty()).1.phase is Batch,
{
    let all = batches.flatten();
    lemma_run_batches(s, batches, chain, Seq::empty(), all.len() as int);
    assert(all.take(all.len() as int) =~= all);
    assert(Seq::empty() + chain.records(s.finalized, all) =~= chain.records(s.finalized, all));
}

/// Where the processing stops at an entry, the records of all entries before it have been
/// written, each once, in the order of the entries, and nothing else, and the reason is that of
/// the entry.
pub proof fn law_a_stop_keeps_what_came_before(
    s: StreamView,
    batches: Seq<Seq<EthLog>>,
    chain: ChainView,
    k: int,
)
    requires
        s.phase is Batch,
        chain.stops_at(s.finalized, batches.flatten(), k),
    ensures
        run_batches(s, batches, chain, Seq::empty()).0 == chain.records(
            s.finalized,
            batches.flatten().take(k),
        ),
        run_batches(s, batches, chain, Seq::empty()).1.phase == (PhaseView::Aborted {
            reason: chain.failure(s.finalized, batches.flatten()[k])->0,
        }),
{
    lemma_run_batches(s, batches, chain, Seq::empty(), k);
    let before = chain.records(s.finalized, batches.flatten().take(k));
    assert(Seq::empty() + before =~= before);
}

/// Of every entry that decodes to an event, recorded or not, the block is asked for first, and
/// then, if its time fits, the transaction.
pub proof fn law_block_and_transaction_are_fetched(
    s: StreamView,
    i: int,
    seconds: nat,
    action: StreamAction<'_>,
)
    requires
        0 <= i < s.logs.len(),
        s.logs[i].event is Some,
        timestamp_ms(seconds) <= u64::MAX,
    ensures
        s.resume(i).asks_for(action) ==> (action matches StreamAction::FetchBlock { number }
            && number == s.logs[i].block_number),
        s.resume(i).after_block(Some(seconds)).asks_for(action) ==> (action matches
            StreamAction::FetchTransaction { hash } && hash@ == s.logs[i].tx_hash@),
{
}

/// The states that a stream can be in stay valid through every step.
pub proof fn law_streams_stay_valid(
    s: StreamView,
    batch: Option<Seq<EthLog>>,
    number: Option<nat>,
)
    requires
        s.valid(),
    ensures
        s.phase is Batch ==> s.after_batch(batch).valid(),
        s.phase is Block ==> s.after_block(number).valid(),
        s.phase is Transaction ==> s.after_transaction(number).valid(),
        s.phase is Write ==> s.after_write().valid(),
{
    if let Some(logs) = batch {
        lemma_next_decoded(logs, 0);
    }
    if s.phase is Transaction || s.phase is Write {
        lemma_next_decoded(s.logs, s.next + 1);
    }
}

/// The finality of the stream is fixed when it is made.
pub proof fn law_finality_is_fixed(s: StreamView, batch: Option<Seq<EthLog>>, number: Option<nat>)
    ensures
        s.after_batch(batch).finalized == s.finalized,
        s.after_block(number).finalized == s.finalized,
        s.after_transaction(number).finalized == s.finalized,
        s.after_write().finalized == s.finalized,
{
}

/// A stream begins with a batch, and is of the kind that it was made for.
pub proof fn law_streams_begin_with_a_batch(
    finalized: bool,
    stream: EthEventStream,
    action: StreamAction<'_>,
)
    requires
        call_ensures(EthEventStream::new, (finalized,), stream),
        call_ensures(EthEventStream::action, (&stream,), action),
    ensures
        stream@.finalized == finalized,
        stream@.logs.len() == 0,
        stream@.phase is Batch,
        action is ReceiveBatch,
{
}

/// What is asked for belongs to the current entry: its block by number, its transaction by hash,
/// the writing of its record. Between batches it is the next batch, and at the end to stop, for
/// the reason that there is.
pub proof fn law_streams_ask_for_what_belongs_to_the_entry(
    stream: EthEventStream,
    action: StreamAction<'_>,
)
    requires
        call_ensures(EthEventStream::action, (&stream,), action),
    ensures
        match stream@.phase {
            PhaseView::Batch => action is ReceiveBatch,
            PhaseView::Block => {
                &&& 0 <= stream@.next < stream@.logs.len()
                &&& action is FetchBlock
                &&& action->number == stream@.logs[stream@.next].block_number
            },
            PhaseView::Transaction { .. } => {
                &&& 0 <= stream@.next < stream@.logs.len()
                &&& action is FetchTransaction
                &&& action->hash@ == stream@.logs[stream@.next].tx_hash@
            },
            PhaseView::Write { transfer } => {
                &&& action is Write
                &&& action->transfer@ == transfer
            },
            PhaseView::Aborted { reason } => {
                &&& action is Abort
                &&& action->reason == reason
            },
        },
{
}

/// Of a batch, all entries are taken, in their order, and the processing begins at the first one
/// that decodes to an event, where its block is wanted; a batch without such an entry is done
/// with. A stream that has ended stops.
pub proof fn law_batches_begin_at_the_first_decoded_entry(
    stream: EthEventStream,
    batch: Option<Vec<EthLog>>,
    after: EthEventStream,
)
    requires
        stream@.phase is Batch,
        call_ensures(EthEventStream::on_batch, (stream, batch), after),
    ensures
        after@.finalized == stream@.finalized,
        batch is None ==> {
            &&& after@.phase is Aborted
            &&& after@.phase->reason == StreamAbort::StreamEnded
        },
        batch matches Some(logs) ==> {
            &&& after@.logs == logs@
            &&& 0 <= after@.next <= after@.logs.len()
            &&& forall|i: int|
                0 <= i < after@.next ==> (#[trigger] after@.logs[i]).event is None
            &&& after@.next < after@.logs.len() ==> {
                &&& after@.phase is Block
                &&& after@.logs[after@.next].event is Some
            }
            &&& after@.next == after@.logs.len() ==> after@.phase is Batch
        },
{
    if let Some(logs) = batch {
        lemma_next_decoded(logs@, 0);
    }
}

/// The time of the block in milliseconds is a thousand times that in seconds, and then the
/// transaction is wanted. A block that cannot be had stops the stream, and so does a time that
/// does not fit in 64 bits. The entry stays the current one.
pub proof fn law_times_are_kept_in_milliseconds(
    stream: EthEventStream,
    timestamp: Option<U256>,
    after: EthEventStream,
)
    requires
        stream@.phase is Block,
        call_ensures(EthEventStream::on_block, (stream, timestamp), after),
    ensures
        after@.finalized == stream@.finalized,
        after@.logs == stream@.logs,
        after@.next == stream@.next,
        timestamp is None ==> {
            &&& after@.phase is Aborted
            &&& after@.phase->reason == StreamAbort::BlockUnavailable
        },
        timestamp matches Some(seconds) ==> {
            &&& 1000 * seconds.value() <= u64::MAX ==> {
                &&& after@.phase is Transaction
                &&& after@.phase->timestamp_ms == 1000 * seconds.value()
            }
            &&& 1000 * seconds.value() > u64::MAX ==> {
                &&& after@.phase is Aborted
                &&& after@.phase->reason == StreamAbort::TimestampOverflow
            }
        },
{
}

/// With the transaction, what is to be written of an entry that is a deposit, or a claim in an
/// unfinalized stream, is the record of it, with the values of the event, of the entry and of the
/// transaction, each in full.
pub proof fn law_entries_are_written_as_they_are(
    stream: EthEventStream,
    gas: U256,
    after: EthEventStream,
)
    requires
        stream@.phase is Transaction,
        stream@.valid(),
        stream@.logs[stream@.next].event->0 is EthSuiBridgeEvents,
        stream@.logs[stream@.next].event->0->EthSuiBridgeEvents_0 is TokensDepositedFilter || (
        stream@.logs[stream@.next].event->0->EthSuiBridgeEvents_0 is TokensClaimedFilter
            && !stream@.finalized),
        gas.value() <= u64::MAX,
        call_ensures(EthEventStream::on_transaction, (stream, Some(gas)), after),
    ensures
        ({
            let log = stream@.logs[stream@.next];
            let transfer = after@.phase->Write_transfer;
            &&& after@.finalized == stream@.finalized
            &&& after@.logs == stream@.logs
            &&& after@.next == stream@.next
            &&& after@.phase is Write
            &&& transfer.block_height == log.block_number
            &&& transfer.timestamp_ms == stream@.phase->timestamp_ms
            &&& transfer.txn_hash == log.tx_hash@
            &&& transfer.gas_usage == gas.value() || transfer.gas_usage == gas.value()
                - 0x1_0000_0000_0000_0000
            &&& transfer.data_source == BridgeDataSource::Eth
        }),
        ({
            let finalized = stream@.finalized;
            let transfer = after@.phase->Write_transfer;
            stream@.logs[stream@.next].event->0->EthSuiBridgeEvents_0
                matches EthSuiBridgeEvents::TokensDepositedFilter(deposit) ==> {
            &&& transfer.chain_id == deposit.source_chain_id
            &&& transfer.nonce == deposit.nonce
            &&& transfer.txn_sender == deposit.sender_address.bytes@
            &&& finalized ==> transfer.status == TokenTransferStatus::Deposited
            &&& !finalized ==> transfer.status == TokenTransferStatus::DepositedUnfinalized
            &&& transfer.data is Some
            &&& transfer.data->0.sender_address == deposit.sender_address.bytes@
            &&& transfer.data->0.destination_chain == deposit.destination_chain_id
            &&& transfer.data->0.recipient_address == deposit.recipient_address@
            &&& transfer.data->0.token_id == deposit.token_id
            &&& transfer.data->0.amount == deposit.sui_adjusted_amount
            }
        }),
        ({
            let transfer = after@.phase->Write_transfer;
            stream@.logs[stream@.next].event->0->EthSuiBridgeEvents_0
                matches EthSuiBridgeEvents::TokensClaimedFilter(claim) ==> {
            &&& transfer.chain_id == claim.source_chain_id
            &&& transfer.nonce == claim.nonce
            &&& transfer.txn_sender == claim.sender_address@
            &&& transfer.status == TokenTransferStatus::Claimed
            &&& transfer.data is None
            }
        }),
{
}

/// Nothing is written of an entry that is neither a deposit nor a claim in an unfinalized
/// stream, whatever its gas: the processing goes on with the first entry behind it that decodes
/// to an event, or is done with the batch.
pub proof fn law_other_entries_are_passed_over(
    stream: EthEventStream,
    gas: U256,
    after: EthEventStream,
)
    requires
        stream@.phase is Transaction,
        stream@.valid(),
        stream@.logs[stream@.next].event->0 is EthSuiBridgeEvents ==> {
            &&& !(stream@.logs[stream@.next].event->0->EthSuiBridgeEvents_0
                is TokensDepositedFilter)
            &&& stream@.logs[stream@.next].event->0->EthSuiBridgeEvents_0 is TokensClaimedFilter
                ==> stream@.finalized
        },
        call_ensures(EthEventStream::on_transaction, (stream, Some(gas)), after),
    ensures
        ({
            &&& after@.finalized == stream@.finalized
            &&& after@.logs == stream@.logs
            &&& stream@.next + 1 <= after@.next <= after@.logs.len()
            &&& forall|i: int|
                stream@.next + 1 <= i < after@.next ==> (#[trigger] after@.logs[i]).event is None
            &&& after@.next < after@.logs.len() ==> {
                &&& after@.phase is Block
                &&& after@.logs[after@.next].event is Some
            }
            &&& after@.next == after@.logs.len() ==> after@.phase is Batch
        }),
{
    lemma_next_decoded(stream@.logs, stream@.next + 1);
}

/// A transaction that cannot be had stops the stream, of whatever event the entry is. Gas that
/// does not fit in 64 bits stops it where there is something to write.
pub proof fn law_transactions_are_needed(
    stream: EthEventStream,
    gas: Option<U256>,
    after: EthEventStream,
)
    requires
        stream@.phase is Transaction,
        stream@.valid(),
        call_ensures(EthEventStream::on_transaction, (stream, gas), after),
    ensures
        gas is None ==> {
            &&& after@.phase is Aborted
            &&& after@.phase->reason == StreamAbort::TransactionUnavailable
        },
        gas matches Some(g) ==> {
            let event = stream@.logs[stream@.next].event->0;
            after@.phase is Aborted <==> {
                &&& g.value() > u64::MAX
                &&& event is EthSuiBridgeEvents
                &&& event->EthSuiBridgeEvents_0 is TokensDepositedFilter || (
                event->EthSuiBridgeEvents_0 is TokensClaimedFilter && !stream@.finalized)
            }
        },
        gas is Some && after@.phase is Aborted ==> after@.phase->reason == StreamAbort::GasOverflow,
{
    lemma_next_decoded(stream@.logs, stream@.next + 1);
}

/// Once a record is dealt with, the processing goes on with the first entry behind it that
/// decodes to an event, or is done with the batch.
pub proof fn law_each_entry_is_dealt_with_once(stream: EthEventStream, after: EthEventStream)
    requires
        stream@.phase is Write,
        stream@.valid(),
        call_ensures(EthEventStream::on_write, (stream,), after),
    ensures
        ({
            &&& after@.finalized == stream@.finalized
            &&& after@.logs == stream@.logs
            &&& stream@.next + 1 <= after@.next <= after@.logs.len()
            &&& forall|i: int|
                stream@.next + 1 <= i < after@.next ==> (#[trigger] after@.logs[i]).event is None
            &&& after@.next < after@.logs.len() ==> {
                &&& after@.phase is Block
                &&& after@.logs[after@.next].event is Some
            }
            &&& after@.next == after@.logs.len() ==> after@.phase is Batch
        }),
{
    lemma_next_decoded(stream@.logs, stream@.next + 1);
}

/// The processing of an entry stops exactly if it decodes to an event and its block cannot be
/// had, or the time of the block in milliseconds does not fit in 64 bits, or its transaction
/// cannot be had, or the gas of the transaction does not fit in 64 bits and is to be recorded.
/// The first of these is the reason.
pub proof fn law_entries_stop_for_want_of_block_or_transaction(
    chain: ChainView,
    finalized: bool,
    log: EthLog,
)
    ensures
        ({
            let seconds = (chain.seconds)(log.block_number);
            let gas = (chain.gas)(log.tx_hash@);
            let event = log.event->0;
            let written = event is EthSuiBridgeEvents && (event->EthSuiBridgeEvents_0
                is TokensDepositedFilter || (event->EthSuiBridgeEvents_0 is TokensClaimedFilter
                && !finalized));
            let failure = chain.failure(finalized, log);
            if log.event is None {
                failure is None
            } else if seconds is None {
                failure == Some(StreamAbort::BlockUnavailable)
            } else if 1000 * seconds->0 > u64::MAX {
                failure == Some(StreamAbort::TimestampOverflow)
            } else if gas is None {
                failure == Some(StreamAbort::TransactionUnavailable)
            } else if written && gas->0 > u64::MAX {
                failure == Some(StreamAbort::GasOverflow)
            } else {
                failure is None
            }
        }),
{
}

/// The records of entries and further entries are those of the one and then those of the other.
pub proof fn law_records_add_up(chain: ChainView, finalized: bool, a: Seq<EthLog>, b: Seq<EthLog>)
    ensures
        chain.records(finalized, a + b) == chain.records(finalized, a) + chain.records(
            finalized,
            b,
        ),
{
    lemma_records_of_both(a, b, finalized, chain);
}

/// Of one entry at which the processing does not stop there is one record if it is a deposit, or
/// a claim in an unfinalized stream, and none otherwise. The record holds the values of the event
/// and of the entry, the time of the block and the gas of the transaction.
pub proof fn law_one_entry_has_one_record_or_none(chain: ChainView, finalized: bool, log: EthLog)
    requires
        chain.failure(finalized, log) is None,
    ensures
        ({
            let event = log.event->0;
            let written = log.event is Some && event is EthSuiBridgeEvents && (
            event->EthSuiBridgeEvents_0 is TokensDepositedFilter || (event->EthSuiBridgeEvents_0
                is TokensClaimedFilter && !finalized));
            let records = chain.records(finalized, seq![log]);
            let gas = (chain.gas)(log.tx_hash@)->0;
            &&& !written ==> records.len() == 0
            &&& written ==> {
                &&& records.len() == 1
                &&& records[0].block_height == log.block_number
                &&& records[0].timestamp_ms == 1000 * (chain.seconds)(log.block_number)->0
                &&& records[0].txn_hash == log.tx_hash@
                &&& records[0].gas_usage == gas || records[0].gas_usage == gas
                    - 0x1_0000_0000_0000_0000
                &&& records[0].data_source == BridgeDataSource::Eth
            }
        }),
        ({
            let transfer = chain.records(finalized, seq![log])[0];
            log.event is Some && log.event->0 is EthSuiBridgeEvents ==> (
            log.event->0->EthSuiBridgeEvents_0 matches EthSuiBridgeEvents::TokensDepositedFilter(
                deposit,
            ) ==> {
            &&& transfer.chain_id == deposit.source_chain_id
            &&& transfer.nonce == deposit.nonce
            &&& transfer.txn_sender == deposit.sender_address.bytes@
            &&& finalized ==> transfer.status == TokenTransferStatus::Deposited
            &&& !finalized ==> transfer.status == TokenTransferStatus::DepositedUnfinalized
            &&& transfer.data is Some
            &&& transfer.data->0.sender_address == deposit.sender_address.bytes@
            &&& transfer.data->0.destination_chain == deposit.destination_chain_id
            &&& transfer.data->0.recipient_address == deposit.recipient_address@
            &&& transfer.data->0.token_id == deposit.token_id
            &&& transfer.data->0.amount == deposit.sui_adjusted_amount
            })
        }),
        ({
            let transfer = chain.records(finalized, seq![log])[0];
            log.event is Some && log.event->0 is EthSuiBridgeEvents && !finalized ==> (
            log.event->0->EthSuiBridgeEvents_0 matches EthSuiBridgeEvents::TokensClaimedFilter(
                claim,
            ) ==> {
            &&& transfer.chain_id == claim.source_chain_id
            &&& transfer.nonce == claim.nonce
            &&& transfer.txn_sender == claim.sender_address@
            &&& transfer.status == TokenTransferStatus::Claimed
            &&& transfer.data is None
            })
        }),
{
    let one = seq![log];
    assert(one.drop_last() =~= Seq::empty());
    assert(chain.records(finalized, one.drop_last()) =~= Seq::empty());
    assert(one.last() == log);
    let record = chain.record(finalized, log);
    assert(chain.records(finalized, one) =~= match record {
        Some(t) => seq![t],
        None => Seq::empty(),
    });
}

/// There are no records where there are no entries.
pub proof fn law_no_entries_no_records(chain: ChainView, finalized: bool)
    ensures
        chain.records(finalized, Seq::empty()).len() == 0,
{
}

} // verus!
