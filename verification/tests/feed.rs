use rs_trade_processor::data::{InstrumentEvent, InstrumentType, TradeEvent};
use rs_trade_processor::feed::{
    instrument_from_draws, next_instrument, next_trade, publish_instruments, publish_trades,
    trade_from_draws, MAX_EXPIRY, MAX_PRICE, MAX_QUANTITY, MAX_STRIKE, MIN_EXPIRY, MIN_PRICE,
    MIN_QUANTITY, MIN_STRIKE, TRADED_INSTRUMENTS,
};
use rs_trade_processor::ring_buffer::RingBuffer;

#[test]
fn synthetic_ranges_are_in_fixed_point() {
    assert_eq!(TRADED_INSTRUMENTS, 10);
    assert_eq!((MIN_PRICE, MAX_PRICE), (1_000_000, 2_000_000));
    assert_eq!((MIN_QUANTITY, MAX_QUANTITY), (-500_000, 500_000));
    assert_eq!((MIN_STRIKE, MAX_STRIKE), (500_000, 2_500_000));
    assert_eq!((MIN_EXPIRY, MAX_EXPIRY), (1_700_000_000, 1_800_000_000));
}

#[test]
fn trade_from_draws_numbers_the_trade_and_picks_its_instrument() {
    assert_eq!(
        trade_from_draws(37, 1_234_567, -42),
        TradeEvent { id: 37, instrument_id: 7, price: 1_234_567, net_quantity: -42 }
    );
    assert_eq!(trade_from_draws(10, 0, 0).instrument_id, 0);
    assert_eq!(trade_from_draws(u64::MAX, 0, 0).instrument_id, 5);
}

#[test]
fn instrument_from_draws_reads_the_type_draw() {
    assert_eq!(
        instrument_from_draws(3, 0, 900_000, 1_700_000_001),
        InstrumentEvent {
            id: 3,
            instrument_type: InstrumentType::Call,
            strike_price: 900_000,
            expiry: 1_700_000_001,
        }
    );
    assert_eq!(instrument_from_draws(3, 1, 0, 0).instrument_type, InstrumentType::Put);
}

#[test]
fn a_synthetic_trade_is_numbered_and_in_range() {
    for sequence in 1..=500u64 {
        let trade = next_trade(sequence);
        assert_eq!(trade.id, sequence);
        assert_eq!(trade.instrument_id, sequence % 10);
        assert!(1_000_000 <= trade.price && trade.price < 2_000_000);
        assert!(-500_000 <= trade.net_quantity && trade.net_quantity < 500_000);
    }
}

#[test]
fn a_synthetic_instrument_is_numbered_and_in_range() {
    for sequence in 0..500u64 {
        let instrument = next_instrument(sequence);
        assert_eq!(instrument.id, sequence);
        assert!(500_000 <= instrument.strike_price && instrument.strike_price < 2_500_000);
        assert!(1_700_000_000 <= instrument.expiry && instrument.expiry < 1_800_000_000);
    }
}

#[test]
fn draws_are_not_all_the_same() {
    let first = next_trade(1);
    let mut other_price = false;
    let mut other_quantity = false;
    let mut calls = 0;
    let mut puts = 0;
    for sequence in 0..2000u64 {
        let trade = next_trade(sequence);
        other_price = other_price || trade.price != first.price;
        other_quantity = other_quantity || trade.net_quantity != first.net_quantity;
        match next_instrument(sequence).instrument_type {
            InstrumentType::Call => calls += 1,
            InstrumentType::Put => puts += 1,
        }
    }
    assert!(other_price);
    assert!(other_quantity);
    assert!(calls > 0);
    assert!(puts > 0);
    assert_eq!(calls + puts, 2000);
}

#[test]
fn a_burst_stops_when_the_buffer_is_full_and_resumes_where_it_stopped() {
    let mut buffer = RingBuffer::new(8, TradeEvent::default());
    let resume = publish_trades(&mut buffer, 1, 21);
    assert_eq!(resume, 9);
    assert!(buffer.is_full());
    assert_eq!(publish_trades(&mut buffer, resume, 21), 9);

    for expected in 1..=3u64 {
        assert_eq!(buffer.try_read().map(|trade| trade.id), Some(expected));
    }
    let resume = publish_trades(&mut buffer, resume, 21);
    assert_eq!(resume, 12);
    for expected in 4..=11u64 {
        let trade = buffer.try_read().unwrap();
        assert_eq!(trade.id, expected);
        assert_eq!(trade.instrument_id, expected % 10);
    }
    assert_eq!(buffer.try_read(), None);
    assert_eq!(publish_trades(&mut buffer, resume, 21), 20);
    assert_eq!(publish_trades(&mut buffer, 20, 21), 20);
    assert_eq!(buffer.write_position(), 19);
}

#[test]
fn a_burst_that_fits_publishes_every_number_once() {
    let mut buffer = RingBuffer::new(16, InstrumentEvent::default());
    assert_eq!(publish_instruments(&mut buffer, 0, 10), 10);
    assert_eq!(buffer.outstanding(), 10);
    for expected in 0..10u64 {
        assert_eq!(buffer.try_read().map(|instrument| instrument.id), Some(expected));
    }
    assert_eq!(buffer.try_read(), None);
}

#[test]
fn an_empty_burst_publishes_nothing() {
    let mut buffer = RingBuffer::new(4, TradeEvent::default());
    assert_eq!(publish_trades(&mut buffer, 5, 5), 5);
    assert_eq!(publish_trades(&mut buffer, 7, 3), 7);
    assert_eq!(buffer.write_position(), 0);
    let mut instruments = RingBuffer::new(4, InstrumentEvent::default());
    assert_eq!(publish_instruments(&mut instruments, 2, 2), 2);
    assert!(instruments.is_empty());
}

#[test]
fn an_instrument_burst_stops_at_a_full_buffer() {
    let mut buffer = RingBuffer::new(3, InstrumentEvent::default());
    assert_eq!(publish_instruments(&mut buffer, 0, 500), 3);
    assert!(buffer.is_full());
    assert_eq!(buffer.try_read().map(|instrument| instrument.id), Some(0));
    assert_eq!(publish_instruments(&mut buffer, 3, 500), 4);
}
