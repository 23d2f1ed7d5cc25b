//! The enrichment worker.
//!
//! A [`TradeProcessor`] owns the three ring buffers of the pipeline. Producers
//! write raw trades and reference records into the two input buffers, the
//! downstream consumer reads the output buffer, and [`TradeProcessor::process`]
//! is one pass of the worker in between. The pass never waits: it returns when
//! there is nothing left to do or when the output buffer is full, and tells its
//! host which of the two it was. The host pauses as
//! [`TradeProcessor::pause_millis`] says and calls again. The time of
//! enrichment is the host's to supply, as the clock is.

use crate::data::{enrich, EnrichedTradeEvent, InstrumentEvent, TradeEvent};
use crate::pipeline_model::{absorb, enrich_each, lookup, PipelineModel, WorkerStatus};
use crate::ring_buffer::{RingBuffer, BUFFER_SIZE};
use std::collections::HashMap;
use vstd::prelude::*;

verus! {

broadcast use vstd::std_specs::hash::group_hash_axioms;

/// Length in milliseconds of the pause of a sleeping worker.
pub const PAUSE_MILLIS: u64 = 1;

/// What the worker's host does between two passes.
#[derive(Debug, Copy, Clone, PartialEq, Eq, Structural)]
pub enum WaitStrategy {
    /// Sleep for [`PAUSE_MILLIS`]: a bounded added latency instead of a
    /// processor kept busy.
    Sleep,
    /// Call again at once.
    BusySpin,
}

/// What the worker keeps between two passes.
pub struct WorkerState {
    reference: HashMap<u64, InstrumentEvent>,
    pending: Option<EnrichedTradeEvent>,
    strategy: WaitStrategy,
}

impl WorkerState {
    /// The latest reference record of each instrument the worker has seen.
    pub closed spec fn reference_view(&self) -> Map<u64, InstrumentEvent> {
        self.reference@
    }

    /// The record that the worker enriched but could not publish yet.
    pub closed spec fn in_hand(&self) -> Option<EnrichedTradeEvent> {
        self.pending
    }

    /// The wait strategy chosen at construction.
    pub closed spec fn strategy(&self) -> WaitStrategy {
        self.strategy
    }
}

/// The pipeline: two input buffers, the output buffer and the worker between
/// them. Its view is the [`PipelineModel`] of these.
pub struct TradeProcessor {
    /// Raw trades, written by the trade source.
    pub trade_buffer: RingBuffer<TradeEvent>,
    /// Reference records, written by the reference-data source.
    pub instrument_buffer: RingBuffer<InstrumentEvent>,
    /// Enriched trades, read by the downstream consumer.
    pub enriched_buffer: RingBuffer<EnrichedTradeEvent>,
    /// The worker's reference view, the record it holds in hand, and its
    /// wait strategy.
    pub worker: WorkerState,
}

impl View for TradeProcessor {
    type V = PipelineModel;

    open spec fn view(&self) -> PipelineModel {
        PipelineModel {
            trades: self.trade_buffer@,
            instruments: self.instrument_buffer@,
            enriched: self.enriched_buffer@,
            reference: self.worker.reference_view(),
            pending: self.worker.in_hand(),
        }
    }
}

impl TradeProcessor {
    /// The wait strategy chosen at construction.
    pub open spec fn strategy(&self) -> WaitStrategy {
        self.worker.strategy()
    }

    /// The three buffers are valid and the pipeline is well formed: every
    /// trade taken from the trade buffer has its one enriched record, on the
    /// output buffer or in hand. Construction establishes this; a pass of the
    /// worker, a write to an input buffer and a read of the output buffer all
    /// keep it.
    pub open spec fn wf(&self) -> bool {
        &&& self.trade_buffer.wf()
        &&& self.instrument_buffer.wf()
        &&& self.enriched_buffer.wf()
        &&& self@.wf()
    }

    /// Creates a processor whose buffers have [`BUFFER_SIZE`] slots each and
    /// whose host sleeps between passes.
    pub fn new() -> (processor: Self)
        ensures
            processor.wf(),
            processor@ == PipelineModel::fresh(BUFFER_SIZE as nat),
            processor.strategy() == WaitStrategy::Sleep,
    {
        Self::with_capacity(BUFFER_SIZE, WaitStrategy::Sleep)
    }

    /// Creates a processor whose buffers have `capacity` slots each, with the
    /// given wait strategy.
    pub fn with_capacity(capacity: usize, strategy: WaitStrategy) -> (processor: Self)
        requires
            capacity > 0,
        ensures
            processor.wf(),
            processor@ == PipelineModel::fresh(capacity as nat),
            processor.strategy() == strategy,
    {
        let processor = TradeProcessor {
            trade_buffer: RingBuffer::new(capacity, TradeEvent::default()),
            instrument_buffer: RingBuffer::new(capacity, InstrumentEvent::default()),
            enriched_buffer: RingBuffer::new(capacity, EnrichedTradeEvent::default()),
            worker: WorkerState { reference: HashMap::new(), pending: None, strategy },
        };
        proof {
            PipelineModel::lemma_fresh(capacity as nat);
        }
        processor
    }

    /// Returns the wait strategy chosen at construction.
    pub fn wait_strategy(&self) -> (strategy: WaitStrategy)
        ensures
            strategy == self.strategy(),
    {
        self.worker.strategy
    }

    /// Returns how many milliseconds the host sleeps before the next pass:
    /// [`PAUSE_MILLIS`] for a sleeping worker, none for a spinning one. The
    /// pause is the same after an idle pass and after one that met
    /// backpressure.
    pub fn pause_millis(&self) -> (millis: u64)
        ensures
            millis == match self.strategy() {
                WaitStrategy::Sleep => PAUSE_MILLIS,
                WaitStrategy::BusySpin => 0,
            },
    {
        match self.worker.strategy {
            WaitStrategy::Sleep => PAUSE_MILLIS,
            WaitStrategy::BusySpin => 0,
        }
    }

    /// Returns the record that the worker enriched but could not publish yet,
    /// if there is one.
    pub fn held_record(&self) -> (record: Option<EnrichedTradeEvent>)
        ensures
            record == self@.pending,
    {
        self.worker.pending
    }

    /// Returns the latest reference record the worker has seen for
    /// `instrument_id`, if it has seen one.
    pub fn reference_record(&self, instrument_id: u64) -> (record: Option<InstrumentEvent>)
        ensures
            record == lookup(self@.reference, instrument_id),
    {
        match self.worker.reference.get(&instrument_id) {
            Some(instrument) => Some(*instrument),
            None => None,
        }
    }

    /// The reference phase of a pass: reads the instrument buffer until it is
    /// empty and takes each record into the reference view, the latest record
    /// of an instrument replacing the one before.
    pub fn drain_reference(&mut self)
        requires
            old(self).instrument_buffer.wf(),
        ensures
            final(self).instrument_buffer.wf(),
            final(self)@ == (PipelineModel {
                instruments: old(self)@.instruments.drained(),
                reference: absorb(old(self)@.reference, old(self)@.instruments.unread()),
                ..old(self)@
            }),
            final(self).trade_buffer == old(self).trade_buffer,
            final(self).enriched_buffer == old(self).enriched_buffer,
            final(self).strategy() == old(self).strategy(),
    {
        let ghost start = self.instrument_buffer@;
        let ghost start_reference = self.worker.reference@;
        let ghost mut taken: nat = 0;
        loop
            invariant
                start == old(self).instrument_buffer@,
                start_reference == old(self).worker.reference@,
                start.wf(),
                self.instrument_buffer.wf(),
                taken <= start.outstanding(),
                self.instrument_buffer@ == start.advance(taken),
                self.worker.reference@ == absorb(start_reference, start.unread().take(taken as int)),
                self.trade_buffer == old(self).trade_buffer,
                self.enriched_buffer == old(self).enriched_buffer,
                self.worker.pending == old(self).worker.pending,
                self.worker.strategy == old(self).worker.strategy,
            ensures
                taken == start.outstanding(),
            decreases start.outstanding() - taken,
        {
            match self.instrument_buffer.try_read() {
                Some(instrument) => {
                    self.worker.reference.insert(instrument.id, instrument);
                    proof {
                        assert(start.unread().take(taken as int + 1).drop_last() =~= start.unread().take(
                            taken as int,
                        ));
                        taken = taken + 1;
                    }
                },
                None => {
                    break ;
                },
            }
        }
        proof {
            assert(start.unread().take(taken as int) =~= start.unread());
        }
    }

    /// The trade phase of a pass: reads the trade buffer and publishes the
    /// enriched record of each trade on the output buffer, until the trade
    /// buffer is empty or the output buffer has no room. In the second case
    /// the record that found no room is held in hand and the pass ends under
    /// backpressure.
    pub fn drain_trades(&mut self, now: u64) -> (status: WorkerStatus)
        requires
            old(self).trade_buffer.wf(),
            old(self).enriched_buffer.wf(),
            old(self)@.pending is None,
        ensures
            final(self).trade_buffer.wf(),
            final(self).enriched_buffer.wf(),
            ({
                let before = old(self)@;
                let records = enrich_each(before.trades.unread(), before.reference, now);
                let room = before.enriched.room();
                if records.len() <= room {
                    &&& status == WorkerStatus::Idle
                    &&& final(self)@ == (PipelineModel {
                        trades: before.trades.drained(),
                        enriched: before.enriched.write_all(records),
                        ..before
                    })
                } else {
                    &&& status == WorkerStatus::Backpressured
                    &&& final(self)@ == (PipelineModel {
                        trades: before.trades.advance(room + 1),
                        enriched: before.enriched.write_all(records.take(room as int)),
                        pending: Some(records[room as int]),
                        ..before
                    })
                }
            }),
            final(self).instrument_buffer == old(self).instrument_buffer,
            final(self).strategy() == old(self).strategy(),
    {
        let ghost before = self@;
        let ghost records = enrich_each(before.trades.unread(), before.reference, now);
        let ghost room = before.enriched.room();
        let ghost mut done: nat = 0;
        loop
            invariant
                before == old(self)@,
                records == enrich_each(before.trades.unread(), before.reference, now),
                room == before.enriched.room(),
                before.trades.wf(),
                before.enriched.wf(),
                before.pending is None,
                self.trade_buffer.wf(),
                self.enriched_buffer.wf(),
                done <= records.len(),
                done <= room,
                self.trade_buffer@ == before.trades.advance(done),
                self.enriched_buffer@ == before.enriched.write_all(records.take(done as int)),
                self.worker.reference@ == before.reference,
                self.worker.pending is None,
                self.instrument_buffer == old(self).instrument_buffer,
                self.worker.strategy == old(self).worker.strategy,
            decreases records.len() - done,
        {
            match self.trade_buffer.try_read() {
                Some(trade) => {
                    let record = self.reference_record(trade.instrument_id);
                    let enriched = enrich(trade, record, now);
                    let accepted = self.enriched_buffer.try_write(enriched);
                    if !accepted {
                        self.worker.pending = Some(enriched);
                        return WorkerStatus::Backpressured;
                    }
                    proof {
                        done = done + 1;
                    }
                },
                None => {
                    return WorkerStatus::Idle;
                },
            }
        }
    }

    /// One pass of the worker at time `now`.
    ///
    /// A pass that finds a record in hand publishes it first; if the output
    /// buffer still has no room the pass ends there, with nothing changed.
    /// Otherwise the pass goes on with the trade phase. A pass that finds
    /// nothing in hand runs the reference phase, then the trade phase.
    ///
    /// Returns [`WorkerStatus::Idle`] when both inputs are exhausted and
    /// [`WorkerStatus::Backpressured`] when the output buffer is full, which
    /// is the only thing that can hold the worker back. Either way, no trade
    /// is lost: the pipeline stays well formed.
    pub fn process(&mut self, now: u64) -> (status: WorkerStatus)
        requires
            old(self).wf(),
        ensures
            final(self).wf(),
            final(self)@ == old(self)@.step(now),
            status == old(self)@.status_after(now),
            status == WorkerStatus::Backpressured ==> final(self)@.enriched.is_full(),
            final(self).strategy() == old(self).strategy(),
    {
        let ghost before = self@;
        proof {
            before.lemma_room_is_free_slots(now);
            before.lemma_step_wf(now);
            before.lemma_status(now);
        }
        match self.worker.pending {
            Some(record) => {
                if !self.enriched_buffer.try_write(record) {
                    return WorkerStatus::Backpressured;
                }
                self.worker.pending = None;
                self.drain_trades(now)
            },
            None => {
                self.drain_reference();
                self.drain_trades(now)
            },
        }
    }
}

} // verus!
