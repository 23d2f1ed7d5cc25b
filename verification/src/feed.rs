//! Synthetic producers for load tests and benchmarks.
//!
//! The two sources here number their events and draw every other attribute at
//! random. They follow the producer protocol of the ring buffer to the letter:
//! check for room, stage the event in the slot of the write cursor, publish.
//! Neither waits. A burst ends when its last event is published or when the
//! buffer has no room; the caller pauses and starts the next burst where this
//! one stopped.

use crate::data::{InstrumentEvent, InstrumentType, TradeEvent, FIXED_POINT_SCALE};
use crate::ring_buffer::RingBuffer;
use rand::Rng;
use vstd::prelude::*;

verus! {

/// Number of instruments that synthetic trades are spread over.
pub const TRADED_INSTRUMENTS: u64 = 10;

/// Synthetic prices lie between 100 inclusive and 200 exclusive.
pub const MIN_PRICE: i64 = 100 * FIXED_POINT_SCALE;

pub const MAX_PRICE: i64 = 200 * FIXED_POINT_SCALE;

/// Synthetic net quantities lie between -50 inclusive and 50 exclusive.
pub const MIN_QUANTITY: i64 = -50 * FIXED_POINT_SCALE;

pub const MAX_QUANTITY: i64 = 50 * FIXED_POINT_SCALE;

/// Synthetic strikes lie between 50 inclusive and 250 exclusive.
pub const MIN_STRIKE: i64 = 50 * FIXED_POINT_SCALE;

pub const MAX_STRIKE: i64 = 250 * FIXED_POINT_SCALE;

/// Synthetic expiries lie between these two unix timestamps, the later one
/// excluded.
pub const MIN_EXPIRY: i64 = 1_700_000_000;

pub const MAX_EXPIRY: i64 = 1_800_000_000;

/// Draws an integer from `low` inclusive to `high` exclusive.
///
/// Trusted: the body calls `gen_range` of the rand crate on the generator of
/// the current thread, with the half-open range `low..high`. `gen_range`
/// panics on an empty range, which the precondition rules out, and otherwise
/// returns a value of the range. Nothing else is claimed of the value: two
/// draws from the same range need not agree.
#[verifier::external_body]
fn random_in_range(low: i64, high: i64) -> (drawn: i64)
    requires
        low < high,
    ensures
        low <= drawn < high,
{
    rand::thread_rng().gen_range(low..high)
}

/// `trade` is a synthetic trade with number `sequence`: it carries the number
/// as its identifier, trades the instrument `sequence` modulo
/// [`TRADED_INSTRUMENTS`], and its price and quantity are in range.
pub open spec fn is_synthetic_trade(trade: TradeEvent, sequence: u64) -> bool {
    &&& trade.id == sequence
    &&& trade.instrument_id == sequence % TRADED_INSTRUMENTS
    &&& MIN_PRICE <= trade.price < MAX_PRICE
    &&& MIN_QUANTITY <= trade.net_quantity < MAX_QUANTITY
}

/// `instrument` is a synthetic reference record with number `sequence`: it
/// carries the number as its identifier, and its strike and expiry are in
/// range.
pub open spec fn is_synthetic_instrument(instrument: InstrumentEvent, sequence: u64) -> bool {
    &&& instrument.id == sequence
    &&& MIN_STRIKE <= instrument.strike_price < MAX_STRIKE
    &&& MIN_EXPIRY <= instrument.expiry < MAX_EXPIRY
}

/// The instrument type that a draw from `0..2` stands for.
pub open spec fn spec_type_of_draw(drawn: i64) -> InstrumentType {
    if drawn == 0 {
        InstrumentType::Call
    } else {
        InstrumentType::Put
    }
}

/// Builds the synthetic trade with number `sequence` from a price and a
/// quantity.
pub fn trade_from_draws(sequence: u64, price: i64, net_quantity: i64) -> (trade: TradeEvent)
    ensures
        trade == (TradeEvent {
            id: sequence,
            instrument_id: sequence % TRADED_INSTRUMENTS,
            price,
            net_quantity,
        }),
{
    TradeEvent { id: sequence, instrument_id: sequence % TRADED_INSTRUMENTS, price, net_quantity }
}

/// Builds the synthetic reference record with number `sequence` from three
/// draws: one from `0..2` for the type, where 0 is a call and 1 a put, one
/// for the strike and one for the expiry.
pub fn instrument_from_draws(sequence: u64, kind: i64, strike_price: i64, expiry: i64) -> (instrument:
    InstrumentEvent)
    requires
        0 <= expiry,
    ensures
        instrument == (InstrumentEvent {
            id: sequence,
            instrument_type: spec_type_of_draw(kind),
            strike_price,
            expiry: expiry as u64,
        }),
{
    let instrument_type = if kind == 0 {
        InstrumentType::Call
    } else {
        InstrumentType::Put
    };
    InstrumentEvent { id: sequence, instrument_type, strike_price, expiry: expiry as u64 }
}

/// Makes the synthetic trade with number `sequence`, with a random price and
/// a random quantity.
pub fn next_trade(sequence: u64) -> (trade: TradeEvent)
    ensures
        is_synthetic_trade(trade, sequence),
{
    let price = random_in_range(MIN_PRICE, MAX_PRICE);
    let net_quantity = random_in_range(MIN_QUANTITY, MAX_QUANTITY);
    trade_from_draws(sequence, price, net_quantity)
}

/// Makes the synthetic reference record with number `sequence`, with a random
/// type, strike and expiry.
pub fn next_instrument(sequence: u64) -> (instrument: InstrumentEvent)
    ensures
        is_synthetic_instrument(instrument, sequence),
{
    let kind = random_in_range(0, 2);
    let strike_price = random_in_range(MIN_STRIKE, MAX_STRIKE);
    let expiry = random_in_range(MIN_EXPIRY, MAX_EXPIRY);
    instrument_from_draws(sequence, kind, strike_price, expiry)
}

/// Number of events that a burst from `first` up to but not including `end`
/// gets into a buffer with `room`: all of them, or as many as there is room
/// for.
pub open spec fn burst_len(first: u64, end: u64, room: nat) -> nat {
    if end <= first {
        0
    } else if end - first <= room {
        (end - first) as nat
    } else {
        room
    }
}

/// Publishes the synthetic trades numbered `first`, `first + 1`, ... on
/// `buffer`, and stops before number `end` or when the buffer has no room,
/// whichever comes first. Returns the number of the first trade that was not
/// published: `end` when the burst is complete, else the number to start the
/// next burst with.
///
/// What was published before stays as it was; the new trades follow it in the
/// order of their numbers, none left out and none twice.
pub fn publish_trades(buffer: &mut RingBuffer<TradeEvent>, first: u64, end: u64) -> (resume: u64)
    requires
        old(buffer).wf(),
    ensures
        final(buffer).wf(),
        resume == first + burst_len(first, end, old(buffer)@.room()),
        final(buffer)@.capacity == old(buffer)@.capacity,
        final(buffer)@.read == old(buffer)@.read,
        final(buffer)@.published.len() == old(buffer)@.published.len() + (resume - first),
        old(buffer)@.published.is_prefix_of(final(buffer)@.published),
        forall|cursor: int|
            0 <= cursor < old(buffer)@.published.len() ==> #[trigger] final(buffer)@.published[cursor]
                == old(buffer)@.published[cursor],
        forall|cursor: int|
            old(buffer)@.published.len() <= cursor < final(buffer)@.published.len()
                ==> is_synthetic_trade(
                #[trigger] final(buffer)@.published[cursor],
                (first + (cursor - old(buffer)@.published.len())) as u64,
            ),
{
    let ghost before = buffer@;
    let mut sequence = first;
    while sequence < end
        invariant
            before == old(buffer)@,
            before.wf(),
            buffer.wf(),
            first <= sequence,
            sequence <= end || sequence == first,
            sequence - first <= before.room(),
            buffer@.capacity == before.capacity,
            buffer@.read == before.read,
            buffer@.published.len() == before.published.len() + (sequence - first),
            before.published.is_prefix_of(buffer@.published),
            forall|cursor: int|
                before.published.len() <= cursor < buffer@.published.len() ==> is_synthetic_trade(
                    #[trigger] buffer@.published[cursor],
                    (first + (cursor - before.published.len())) as u64,
                ),
        ensures
            sequence == first + burst_len(first, end, before.room()),
        decreases end - sequence,
    {
        if !buffer.has_room() {
            break ;
        }
        let trade = next_trade(sequence);
        let slot = buffer.slot_index(buffer.write_position());
        proof {
            buffer@.lemma_write_slot_is_free();
        }
        buffer.write_slot(slot, trade);
        buffer.publish();
        sequence = sequence + 1;
    }
    sequence
}

/// Publishes the synthetic reference records numbered `first`, `first + 1`,
/// ... on `buffer`, and stops before number `end` or when the buffer has no
/// room, whichever comes first. Returns the number of the first record that
/// was not published: `end` when the burst is complete, else the number to
/// start the next burst with.
///
/// What was published before stays as it was; the new records follow it in
/// the order of their numbers, none left out and none twice.
pub fn publish_instruments(buffer: &mut RingBuffer<InstrumentEvent>, first: u64, end: u64) -> (resume:
    u64)
    requires
        old(buffer).wf(),
    ensures
        final(buffer).wf(),
        resume == first + burst_len(first, end, old(buffer)@.room()),
        final(buffer)@.capacity == old(buffer)@.capacity,
        final(buffer)@.read == old(buffer)@.read,
        final(buffer)@.published.len() == old(buffer)@.published.len() + (resume - first),
        old(buffer)@.published.is_prefix_of(final(buffer)@.published),
        forall|cursor: int|
            0 <= cursor < old(buffer)@.published.len() ==> #[trigger] final(buffer)@.published[cursor]
                == old(buffer)@.published[cursor],
        forall|cursor: int|
            old(buffer)@.published.len() <= cursor < final(buffer)@.published.len()
                ==> is_synthetic_instrument(
                #[trigger] final(buffer)@.published[cursor],
                (first + (cursor - old(buffer)@.published.len())) as u64,
            ),
{
    let ghost before = buffer@;
    let mut sequence = first;
    while sequence < end
        invariant
            before == old(buffer)@,
            before.wf(),
            buffer.wf(),
            first <= sequence,
            sequence <= end || sequence == first,
            sequence - first <= before.room(),
            buffer@.capacity == before.capacity,
            buffer@.read == before.read,
            buffer@.published.len() == before.published.len() + (sequence - first),
            before.published.is_prefix_of(buffer@.published),
            forall|cursor: int|
                before.published.len() <= cursor < buffer@.published.len() ==> is_synthetic_instrument(
                    #[trigger] buffer@.published[cursor],
                    (first + (cursor - before.published.len())) as u64,
                ),
        ensures
            sequence == first + burst_len(first, end, before.room()),
        decreases end - sequence,
    {
        if !buffer.has_room() {
            break ;
        }
        let instrument = next_instrument(sequence);
        let slot = buffer.slot_index(buffer.write_position());
        proof {
            buffer@.lemma_write_slot_is_free();
        }
        buffer.write_slot(slot, instrument);
        buffer.publish();
        sequence = sequence + 1;
    }
    sequence
}

} // verus!
