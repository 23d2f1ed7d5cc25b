//! The mathematical model of the enrichment pipeline, and what holds of it.
//!
//! Raw trades and instrument reference records arrive on two independent ring
//! buffers. One worker turns each trade into exactly one enriched record and
//! publishes it on a third buffer. When that buffer is full the worker keeps
//! the record it could not publish in hand and goes no further until it got rid
//! of it: slowness downstream holds the worker back, and never costs a trade.

use crate::data::{
    spec_enrich, EnrichedTradeEvent, InstrumentEvent, TradeEvent, PLACEHOLDER_CODE,
};
use crate::ring_model::RingModel;
use vstd::prelude::*;

verus! {

/// How a pass of the worker ended.
#[derive(Debug, Copy, Clone, PartialEq, Eq, Structural)]
pub enum WorkerStatus {
    /// Both input buffers are exhausted and nothing is held in hand.
    Idle,
    /// The output buffer has no room; the record that could not be published
    /// is held in hand, to be published first by the next pass.
    Backpressured,
}

/// The reference record of an instrument, if the view holds one.
pub open spec fn lookup(reference: Map<u64, InstrumentEvent>, instrument_id: u64) -> Option<
    InstrumentEvent,
> {
    if reference.contains_key(instrument_id) {
        Some(reference[instrument_id])
    } else {
        None
    }
}

/// The reference view after `events` were taken in, in order. Each instrument
/// maps to the latest record seen for it; earlier ones are forgotten.
pub open spec fn absorb(reference: Map<u64, InstrumentEvent>, events: Seq<InstrumentEvent>) -> Map<
    u64,
    InstrumentEvent,
>
    decreases events.len(),
{
    if events.len() == 0 {
        reference
    } else {
        absorb(reference, events.drop_last()).insert(events.last().id, events.last())
    }
}

/// The enriched records of `trades`, one for each and in the same order, with
/// portfolios resolved through `reference` and `now` as time of enrichment.
pub open spec fn enrich_each(
    trades: Seq<TradeEvent>,
    reference: Map<u64, InstrumentEvent>,
    now: u64,
) -> Seq<EnrichedTradeEvent> {
    Seq::new(
        trades.len(),
        |i: int| spec_enrich(trades[i], lookup(reference, trades[i].instrument_id), now),
    )
}

/// The raw trades that `records` were made from, in the same order.
pub open spec fn origins(records: Seq<EnrichedTradeEvent>) -> Seq<TradeEvent> {
    Seq::new(records.len(), |i: int| records[i].spec_trade())
}

/// The identifiers of `trades`, in the same order.
pub open spec fn trade_ids(trades: Seq<TradeEvent>) -> Seq<u64> {
    Seq::new(trades.len(), |i: int| trades[i].id)
}

/// The identifiers of `records`, in the same order.
pub open spec fn enriched_ids(records: Seq<EnrichedTradeEvent>) -> Seq<u64> {
    Seq::new(records.len(), |i: int| records[i].id)
}

/// The state of the pipeline: its three buffers and what the worker keeps
/// between passes.
#[verifier::ext_equal]
pub struct PipelineModel {
    /// Raw trades, written by the trade source and read by the worker.
    pub trades: RingModel<TradeEvent>,
    /// Reference records, written by the reference-data source and read by
    /// the worker.
    pub instruments: RingModel<InstrumentEvent>,
    /// Enriched trades, written by the worker and read downstream.
    pub enriched: RingModel<EnrichedTradeEvent>,
    /// The latest reference record of each instrument the worker has seen.
    pub reference: Map<u64, InstrumentEvent>,
    /// The record that the worker took from the trade buffer and enriched but
    /// could not publish yet.
    pub pending: Option<EnrichedTradeEvent>,
}

impl PipelineModel {
    /// A pipeline whose buffers have `capacity` slots each and in which
    /// nothing has happened yet.
    pub open spec fn fresh(capacity: nat) -> Self {
        PipelineModel {
            trades: RingModel::fresh(capacity),
            instruments: RingModel::fresh(capacity),
            enriched: RingModel::fresh(capacity),
            reference: Map::empty(),
            pending: None,
        }
    }

    /// The record held in hand, as a sequence of at most one record.
    pub open spec fn held(self) -> Seq<EnrichedTradeEvent> {
        match self.pending {
            Some(record) => seq![record],
            None => Seq::empty(),
        }
    }

    /// Every trade that the worker has taken from the trade buffer has exactly
    /// one enriched record, and these records are, in the order of the trades,
    /// the ones published so far followed by the one held in hand.
    pub open spec fn coherent(self) -> bool {
        origins(self.enriched.published + self.held()) =~= self.trades.consumed()
    }

    /// The three buffers are well formed and the pipeline is coherent.
    pub open spec fn wf(self) -> bool {
        &&& self.trades.wf()
        &&& self.instruments.wf()
        &&& self.enriched.wf()
        &&& self.coherent()
    }

    /// Number of trades that were handed to the pipeline and whose enriched
    /// record has not been published yet.
    pub open spec fn backlog(self) -> nat {
        self.held().len() + self.trades.outstanding()
    }

    /// Nothing is held in hand and no trade waits to be read.
    pub open spec fn quiescent(self) -> bool {
        self.backlog() == 0
    }

    /// The reference view that a pass works with. A pass that starts with a
    /// record in hand is still in the middle of its trades and does not look
    /// at the instrument buffer; any other pass first takes in every reference
    /// record that waits there.
    pub open spec fn reference_for_pass(self) -> Map<u64, InstrumentEvent> {
        if self.pending is Some {
            self.reference
        } else {
            absorb(self.reference, self.instruments.unread())
        }
    }

    /// The records that a pass at time `now` has to publish, in order: the one
    /// held in hand, if any, then the enriched record of each waiting trade.
    pub open spec fn candidates(self, now: u64) -> Seq<EnrichedTradeEvent> {
        self.held() + enrich_each(self.trades.unread(), self.reference_for_pass(), now)
    }

    /// Number of records that a pass at time `now` publishes: all it has, or
    /// as many as the output buffer has room for.
    pub open spec fn accepted(self, now: u64) -> nat {
        if self.candidates(now).len() <= self.enriched.room() {
            self.candidates(now).len()
        } else {
            self.enriched.room()
        }
    }

    /// How a pass at time `now` ends.
    pub open spec fn status_after(self, now: u64) -> WorkerStatus {
        if self.candidates(now).len() <= self.enriched.room() {
            WorkerStatus::Idle
        } else {
            WorkerStatus::Backpressured
        }
    }

    /// The pipeline after one pass of the worker at time `now`.
    ///
    /// The pass publishes its candidates in order for as long as the output
    /// buffer has room. If there is room for all, the trade buffer ends up
    /// empty and nothing is held. If not, the first record that found no room
    /// is held in hand, and the trades behind it stay in the trade buffer.
    pub open spec fn step(self, now: u64) -> Self {
        let candidates = self.candidates(now);
        let accepted = self.accepted(now);
        let all = candidates.len() <= self.enriched.room();
        PipelineModel {
            trades: if all {
                self.trades.drained()
            } else {
                self.trades.advance((accepted + 1 - self.held().len()) as nat)
            },
            instruments: if self.pending is Some {
                self.instruments
            } else {
                self.instruments.drained()
            },
            enriched: self.enriched.write_all(candidates.take(accepted as int)),
            reference: self.reference_for_pass(),
            pending: if all {
                None
            } else {
                Some(candidates[accepted as int])
            },
        }
    }

    /// The pipeline after the trade source offered `trade`.
    pub open spec fn offer_trade(self, trade: TradeEvent) -> Self {
        PipelineModel { trades: self.trades.try_write(trade), ..self }
    }

    /// The pipeline after the reference-data source offered `instrument`.
    pub open spec fn offer_instrument(self, instrument: InstrumentEvent) -> Self {
        PipelineModel { instruments: self.instruments.try_write(instrument), ..self }
    }

    /// The pipeline after the downstream consumer tried to read one enriched
    /// record.
    pub open spec fn take_enriched(self) -> Self {
        PipelineModel { enriched: self.enriched.try_read(), ..self }
    }

    /// The pipeline after the downstream consumer read every enriched record
    /// that waited.
    pub open spec fn drain_enriched(self) -> Self {
        PipelineModel { enriched: self.enriched.drained(), ..self }
    }

    /// The pipeline after one round for each of `times`: in each round the
    /// downstream consumer empties the output buffer, then the worker makes a
    /// pass at that time.
    pub open spec fn settle(self, times: Seq<u64>) -> Self
        decreases times.len(),
    {
        if times.len() == 0 {
            self
        } else {
            self.drain_enriched().step(times.first()).settle(times.skip(1))
        }
    }
}

/// One thing that can happen to a pipeline.
pub enum PipelineEvent {
    /// The trade source offers a trade.
    OfferTrade(TradeEvent),
    /// The reference-data source offers a reference record.
    OfferInstrument(InstrumentEvent),
    /// The worker makes a pass at the given time.
    WorkerPass(u64),
    /// The downstream consumer tries to read one enriched record.
    TakeEnriched,
}

impl PipelineModel {
    /// The pipeline after `event`.
    pub open spec fn apply(self, event: PipelineEvent) -> Self {
        match event {
            PipelineEvent::OfferTrade(trade) => self.offer_trade(trade),
            PipelineEvent::OfferInstrument(instrument) => self.offer_instrument(instrument),
            PipelineEvent::WorkerPass(now) => self.step(now),
            PipelineEvent::TakeEnriched => self.take_enriched(),
        }
    }

    /// The pipeline after `events` happened one after the other.
    pub open spec fn run(self, events: Seq<PipelineEvent>) -> Self
        decreases events.len(),
    {
        if events.len() == 0 {
            self
        } else {
            self.run(events.drop_last()).apply(events.last())
        }
    }
}

/// The trades behind a sequence of records are as many as the records, and
/// taking them distributes over concatenation.
pub proof fn lemma_origins_concat(first: Seq<EnrichedTradeEvent>, second: Seq<EnrichedTradeEvent>)
    ensures
        origins(first + second) =~= origins(first) + origins(second),
{
}

/// Enriching keeps each trade's own fields: the trades behind the enriched
/// records of `trades` are `trades`.
pub proof fn lemma_enrich_keeps_trades(
    trades: Seq<TradeEvent>,
    reference: Map<u64, InstrumentEvent>,
    now: u64,
)
    ensures
        origins(enrich_each(trades, reference, now)) =~= trades,
        enrich_each(trades, reference, now).len() == trades.len(),
{
}

/// A record taken in is the one the view then holds for its instrument,
/// whatever it held before; all other instruments keep their record.
pub proof fn lemma_absorb_last_write_wins(
    reference: Map<u64, InstrumentEvent>,
    events: Seq<InstrumentEvent>,
    instrument: InstrumentEvent,
)
    ensures
        lookup(absorb(reference, events.push(instrument)), instrument.id) == Some(instrument),
        forall|other: u64|
            other != instrument.id ==> lookup(absorb(reference, events.push(instrument)), other)
                == lookup(absorb(reference, events), other),
{
    assert(events.push(instrument).drop_last() =~= events);
}

/// A trade whose instrument the view does not know is still enriched, and
/// booked to the placeholder portfolio: each of the sixteen characters of its
/// portfolio identifier is the placeholder code. Its own fields and the time
/// of enrichment are as for any other trade.
pub proof fn lemma_unknown_instrument_gets_placeholder(
    reference: Map<u64, InstrumentEvent>,
    trade: TradeEvent,
    now: u64,
)
    requires
        !reference.contains_key(trade.instrument_id),
    ensures
        ({
            let record = spec_enrich(trade, lookup(reference, trade.instrument_id), now);
            &&& record.spec_trade() == trade
            &&& record.processed_timestamp == now
            &&& forall|i: int| 0 <= i < 16 ==> record.portfolio_id@[i] == PLACEHOLDER_CODE
        }),
{
}

impl PipelineModel {
    /// A fresh pipeline is well formed and quiescent.
    pub proof fn lemma_fresh(capacity: nat)
        requires
            0 < capacity <= usize::MAX,
        ensures
            Self::fresh(capacity).wf(),
            Self::fresh(capacity).quiescent(),
    {
    }

    /// In a well-formed pipeline the output buffer's write cursor is far
    /// enough from the largest count the machine can hold for every record
    /// the worker still has to publish: only a full output buffer ever turns
    /// the worker away.
    pub proof fn lemma_room_is_free_slots(self, now: u64)
        requires
            self.wf(),
        ensures
            self.candidates(now).len() == self.backlog(),
            self.enriched.published.len() + self.backlog() <= usize::MAX,
            self.candidates(now).len() > self.enriched.room() ==> self.enriched.room()
                == self.enriched.capacity - self.enriched.outstanding(),
            self.backlog() > 0 && !self.enriched.is_full() ==> self.enriched.has_room(),
    {
    }

    /// A pass keeps the pipeline well formed.
    pub proof fn lemma_step_wf(self, now: u64)
        requires
            self.wf(),
        ensures
            self.step(now).wf(),
    {
        self.lemma_room_is_free_slots(now);
        let candidates = self.candidates(now);
        let fresh_records = enrich_each(self.trades.unread(), self.reference_for_pass(), now);
        lemma_enrich_keeps_trades(self.trades.unread(), self.reference_for_pass(), now);
        lemma_origins_concat(self.held(), fresh_records);
        lemma_origins_concat(self.enriched.published, self.held());
        if candidates.len() <= self.enriched.room() {
            // Everything is published: the records stand for all trades read
            // before and all that waited.
            lemma_origins_concat(self.enriched.published, candidates);
        } else {
            // The records published and the one then held are the candidates
            // up to and including the first that found no room.
            lemma_origins_concat(
                self.enriched.published,
                candidates.take(self.accepted(now) as int + 1),
            );
        }
    }

    /// Whatever happens to a pipeline keeps it well formed: producers and the
    /// downstream consumer cannot make the worker lose, duplicate or reorder a
    /// trade, and neither can the worker itself.
    pub proof fn lemma_apply_wf(self, event: PipelineEvent)
        requires
            self.wf(),
        ensures
            self.apply(event).wf(),
    {
        match event {
            PipelineEvent::OfferTrade(trade) => {
                self.trades.lemma_try_write(trade);
            },
            PipelineEvent::OfferInstrument(instrument) => {
                self.instruments.lemma_try_write(instrument);
            },
            PipelineEvent::WorkerPass(now) => {
                self.lemma_step_wf(now);
            },
            PipelineEvent::TakeEnriched => {
                self.enriched.lemma_try_read();
            },
        }
    }

    /// Every state that a well-formed pipeline can reach is well formed.
    pub proof fn lemma_run_wf(self, events: Seq<PipelineEvent>)
        requires
            self.wf(),
        ensures
            self.run(events).wf(),
        decreases events.len(),
    {
        if events.len() > 0 {
            self.lemma_run_wf(events.drop_last());
            self.run(events.drop_last()).lemma_apply_wf(events.last());
        }
    }

    /// Order preservation. The records published on the output buffer stand
    /// for the first so many trades written to the trade buffer, one record
    /// per trade and in the order in which the trades were written: the
    /// identifiers seen on the output are a prefix of the identifiers written
    /// to the input.
    pub proof fn lemma_order_preserved(self)
        requires
            self.wf(),
        ensures
            self.enriched.published.len() <= self.trades.published.len(),
            forall|i: int|
                0 <= i < self.enriched.published.len() ==> (
                #[trigger] self.enriched.published[i]).spec_trade() == self.trades.published[i],
            enriched_ids(self.enriched.published).is_prefix_of(trade_ids(self.trades.published)),
            origins(self.enriched.published).is_prefix_of(self.trades.published),
    {
        let published = self.enriched.published;
        lemma_origins_concat(published, self.held());
        assert forall|i: int| 0 <= i < published.len() implies (#[trigger] published[i]).spec_trade()
            == self.trades.published[i] by {
            assert(origins(published + self.held())[i] == self.trades.consumed()[i]);
        }
    }

    /// Order preservation holds of every state that a fresh pipeline can
    /// reach, whatever the producers, the worker and the downstream consumer
    /// do and in whatever order.
    pub proof fn lemma_order_preserved_always(capacity: nat, events: Seq<PipelineEvent>)
        requires
            0 < capacity <= usize::MAX,
        ensures
            ({
                let reached = Self::fresh(capacity).run(events);
                &&& reached.wf()
                &&& enriched_ids(reached.enriched.published).is_prefix_of(
                    trade_ids(reached.trades.published),
                )
                &&& origins(reached.enriched.published).is_prefix_of(reached.trades.published)
            }),
    {
        Self::lemma_fresh(capacity);
        Self::fresh(capacity).lemma_run_wf(events);
        Self::fresh(capacity).run(events).lemma_order_preserved();
    }

    /// No loss, at rest. When nothing is held in hand and no trade waits,
    /// which is how every pass that ends idle leaves the pipeline, there are
    /// exactly as many enriched records as trades were ever written, and they
    /// stand for these trades one by one.
    pub proof fn lemma_quiescent_means_all_enriched(self)
        requires
            self.wf(),
            self.quiescent(),
        ensures
            self.enriched.published.len() == self.trades.published.len(),
            origins(self.enriched.published) =~= self.trades.published,
            enriched_ids(self.enriched.published) =~= trade_ids(self.trades.published),
    {
        self.lemma_order_preserved();
    }

    /// A pass that ends idle leaves the pipeline quiescent; one that ends
    /// under backpressure leaves the output buffer full and a record in hand.
    pub proof fn lemma_status(self, now: u64)
        requires
            self.wf(),
        ensures
            self.status_after(now) == WorkerStatus::Idle ==> self.step(now).quiescent(),
            self.status_after(now) == WorkerStatus::Backpressured ==> self.step(now).enriched.is_full()
                && self.step(now).pending is Some,
            self.step(now).backlog() == self.backlog() - self.accepted(now),
    {
        self.lemma_room_is_free_slots(now);
        self.lemma_step_wf(now);
    }

    /// Backpressure. While the output buffer is full the worker publishes
    /// nothing and drops nothing: a pass leaves the output buffer as it was,
    /// takes at most the one trade it then holds in hand, and keeps every
    /// other trade waiting in the trade buffer in its order. If anything was
    /// there to do, the pass ends under backpressure.
    pub proof fn lemma_backpressure(self, now: u64)
        requires
            self.wf(),
            self.enriched.is_full(),
        ensures
            self.step(now).enriched == self.enriched,
            self.step(now).wf(),
            self.step(now).backlog() == self.backlog(),
            self.backlog() > 0 ==> self.status_after(now) == WorkerStatus::Backpressured,
            self.backlog() > 0 ==> self.step(now).pending == Some(self.candidates(now)[0]),
            self.pending is Some ==> self.step(now) == self,
            self.step(now).held() + enrich_each(
                self.step(now).trades.unread(),
                self.reference_for_pass(),
                now,
            ) =~= self.candidates(now),
    {
        self.lemma_room_is_free_slots(now);
        self.lemma_step_wf(now);
    }

    /// Once the downstream consumer has made room, the records that were held
    /// back flow again in their order: a pass publishes the candidates from
    /// the front, the record held in hand first, as far as the room goes.
    pub proof fn lemma_resumes_in_order(self, now: u64)
        requires
            self.wf(),
        ensures
            self.step(now).enriched.published =~= self.enriched.published + self.candidates(
                now,
            ).take(self.accepted(now) as int),
            self.step(now).enriched.unread() =~= self.enriched.unread() + self.candidates(now).take(
                self.accepted(now) as int,
            ),
            self.enriched.has_room() && self.backlog() > 0 ==> self.accepted(now) > 0,
            self.pending is Some && self.enriched.has_room() ==> self.step(
                now,
            ).enriched.published[self.enriched.published.len() as int] == self.pending.unwrap(),
    {
        self.lemma_room_is_free_slots(now);
    }

    /// No loss, in the end. However many trades were written, and whatever
    /// state the pipeline is in: if the downstream consumer keeps emptying the
    /// output buffer and the worker keeps making passes, then after at most as
    /// many rounds as there are trades still to publish, every trade ever
    /// written has exactly one enriched record on the output, in the order in
    /// which the trades were written.
    pub proof fn lemma_no_loss(self, times: Seq<u64>)
        requires
            self.wf(),
            times.len() >= self.backlog(),
        ensures
            self.settle(times).wf(),
            self.settle(times).quiescent(),
            self.settle(times).trades.published == self.trades.published,
            self.settle(times).enriched.published.len() == self.trades.published.len(),
            origins(self.settle(times).enriched.published) =~= self.trades.published,
            enriched_ids(self.settle(times).enriched.published) =~= trade_ids(
                self.trades.published,
            ),
        decreases times.len(),
    {
        if times.len() == 0 {
            self.lemma_quiescent_means_all_enriched();
        } else {
            let drained = self.drain_enriched();
            let now = times.first();
            drained.lemma_room_is_free_slots(now);
            drained.lemma_step_wf(now);
            drained.lemma_status(now);
            drained.step(now).lemma_no_loss(times.skip(1));
        }
    }

    /// No loss, from the start. Let producers, worker and downstream consumer
    /// do to a fresh pipeline whatever they do, in whatever order, and let `n`
    /// trades have been written by then. If from then on the consumer keeps
    /// emptying the output buffer and the worker keeps making passes, one
    /// round for each slot of the trade buffer and one more are enough for
    /// exactly `n` enriched records to have been read downstream, one for each
    /// trade and in the order of the trades.
    pub proof fn lemma_no_loss_always(capacity: nat, events: Seq<PipelineEvent>, times: Seq<u64>)
        requires
            0 < capacity <= usize::MAX,
            times.len() > capacity,
        ensures
            ({
                let written = Self::fresh(capacity).run(events).trades.published;
                let observed = Self::fresh(capacity).run(events).settle(
                    times,
                ).drain_enriched().enriched.consumed();
                &&& observed.len() == written.len()
                &&& origins(observed) =~= written
                &&& enriched_ids(observed) =~= trade_ids(written)
            }),
    {
        Self::lemma_fresh(capacity);
        let reached = Self::fresh(capacity).run(events);
        Self::fresh(capacity).lemma_run_wf(events);
        Self::fresh(capacity).lemma_run_keeps_capacity(events);
        reached.lemma_no_loss(times);
    }

    /// The buffers keep their capacity whatever happens.
    pub proof fn lemma_run_keeps_capacity(self, events: Seq<PipelineEvent>)
        ensures
            self.run(events).trades.capacity == self.trades.capacity,
            self.run(events).instruments.capacity == self.instruments.capacity,
            self.run(events).enriched.capacity == self.enriched.capacity,
        decreases events.len(),
    {
        if events.len() > 0 {
            self.lemma_run_keeps_capacity(events.drop_last());
        }
    }
}

} // verus!
