//! Event records carried by the ring buffers.
//!
//! All three records are plain `Copy` values with a fixed layout. Prices,
//! quantities and strikes are signed fixed-point numbers: the stored integer is
//! the decimal value multiplied by [`FIXED_POINT_SCALE`].

use vstd::array::spec_array_fill_for_copy_type;
use vstd::prelude::*;

verus! {

/// Number of fixed-point units in one whole unit of price or quantity.
pub const FIXED_POINT_SCALE: i64 = 10_000;

/// Number of characters in a portfolio identifier.
pub const PORTFOLIO_ID_LEN: usize = 16;

/// Character that fills the portfolio identifier of a trade whose instrument
/// has no reference record yet.
pub const PLACEHOLDER_CODE: char = 'X';

/// Wire code of a call option.
pub const CALL_CODE: char = 'C';

/// Wire code of a put option.
pub const PUT_CODE: char = 'P';

/// Kind of option an instrument is.
#[derive(Debug, Copy, Clone, PartialEq, Eq, Structural)]
pub enum InstrumentType {
    Call,
    Put,
}

impl InstrumentType {
    /// The one-character wire code of this kind.
    pub open spec fn spec_code(self) -> char {
        match self {
            InstrumentType::Call => CALL_CODE,
            InstrumentType::Put => PUT_CODE,
        }
    }

    /// The kind a wire code stands for, if it stands for one.
    pub open spec fn spec_from_code(code: char) -> Option<InstrumentType> {
        if code == CALL_CODE {
            Some(InstrumentType::Call)
        } else if code == PUT_CODE {
            Some(InstrumentType::Put)
        } else {
            None
        }
    }

    /// Returns `'C'` for a call and `'P'` for a put.
    #[verifier::when_used_as_spec(spec_code)]
    pub fn code(self) -> (code: char)
        ensures
            code == self.spec_code(),
    {
        match self {
            InstrumentType::Call => CALL_CODE,
            InstrumentType::Put => PUT_CODE,
        }
    }

    /// Reads a wire code: `'C'` is a call, `'P'` is a put, anything else is
    /// no instrument type.
    #[verifier::when_used_as_spec(spec_from_code)]
    pub fn from_code(code: char) -> (kind: Option<InstrumentType>)
        ensures
            kind == Self::spec_from_code(code),
    {
        if code == CALL_CODE {
            Some(InstrumentType::Call)
        } else if code == PUT_CODE {
            Some(InstrumentType::Put)
        } else {
            None
        }
    }

    /// Reading the code of a kind gives the kind back.
    pub proof fn lemma_code_round_trip(kind: InstrumentType)
        ensures
            Self::spec_from_code(kind.spec_code()) == Some(kind),
    {
    }
}

impl Default for InstrumentType {
    fn default() -> (kind: Self)
        ensures
            kind == InstrumentType::Call,
    {
        InstrumentType::Call
    }
}

/// A raw trade as delivered by the trade source.
#[derive(Debug, Copy, Clone, PartialEq, Eq, Structural)]
pub struct TradeEvent {
    /// Monotonic trade identifier.
    pub id: u64,
    pub instrument_id: u64,
    /// Fixed-point price.
    pub price: i64,
    /// Fixed-point net quantity: positive is a net buy, negative a net sell.
    pub net_quantity: i64,
}

impl Default for TradeEvent {
    fn default() -> (trade: Self)
        ensures
            trade == (TradeEvent { id: 0, instrument_id: 0, price: 0, net_quantity: 0 }),
    {
        TradeEvent { id: 0, instrument_id: 0, price: 0, net_quantity: 0 }
    }
}

/// A reference record describing one instrument.
#[derive(Debug, Copy, Clone, PartialEq, Eq, Structural)]
pub struct InstrumentEvent {
    /// Instrument identifier.
    pub id: u64,
    pub instrument_type: InstrumentType,
    /// Fixed-point strike price.
    pub strike_price: i64,
    /// Expiry as a unix timestamp in seconds.
    pub expiry: u64,
}

impl Default for InstrumentEvent {
    fn default() -> (instrument: Self)
        ensures
            instrument == (InstrumentEvent {
                id: 0,
                instrument_type: InstrumentType::Call,
                strike_price: 0,
                expiry: 0,
            }),
    {
        InstrumentEvent { id: 0, instrument_type: InstrumentType::Call, strike_price: 0, expiry: 0 }
    }
}

/// A trade together with the attributes the enrichment worker resolved for it.
#[derive(Debug, Copy, Clone, PartialEq, Eq)]
pub struct EnrichedTradeEvent {
    pub id: u64,
    pub instrument_id: u64,
    pub price: i64,
    pub net_quantity: i64,
    /// Portfolio the trade is booked to.
    pub portfolio_id: [char; 16],
    /// Time of enrichment, as handed to the worker by its host.
    pub processed_timestamp: u64,
}

impl EnrichedTradeEvent {
    /// The raw trade this record was made from.
    pub open spec fn spec_trade(self) -> TradeEvent {
        TradeEvent {
            id: self.id,
            instrument_id: self.instrument_id,
            price: self.price,
            net_quantity: self.net_quantity,
        }
    }

    /// Returns the raw trade this record was made from.
    #[verifier::when_used_as_spec(spec_trade)]
    pub fn trade(self) -> (trade: TradeEvent)
        ensures
            trade == self.spec_trade(),
    {
        TradeEvent {
            id: self.id,
            instrument_id: self.instrument_id,
            price: self.price,
            net_quantity: self.net_quantity,
        }
    }
}

impl Default for EnrichedTradeEvent {
    fn default() -> (record: Self)
        ensures
            record == (EnrichedTradeEvent {
                id: 0,
                instrument_id: 0,
                price: 0,
                net_quantity: 0,
                portfolio_id: spec_array_fill_for_copy_type::<char, 16>('\0'),
                processed_timestamp: 0,
            }),
    {
        EnrichedTradeEvent {
            id: 0,
            instrument_id: 0,
            price: 0,
            net_quantity: 0,
            portfolio_id: ['\0'; 16],
            processed_timestamp: 0,
        }
    }
}

/// The character that fills the portfolio identifier resolved from `record`:
/// the instrument's type code when the instrument is known, the placeholder
/// when it is not.
pub open spec fn portfolio_code(record: Option<InstrumentEvent>) -> char {
    match record {
        Some(instrument) => instrument.instrument_type.spec_code(),
        None => PLACEHOLDER_CODE,
    }
}

/// The portfolio a trade is booked to, given the reference record of its
/// instrument: sixteen copies of [`portfolio_code`].
pub open spec fn spec_resolve_portfolio(record: Option<InstrumentEvent>) -> [char; 16] {
    spec_array_fill_for_copy_type::<char, 16>(portfolio_code(record))
}

/// Resolves the portfolio of a trade from the reference record of its
/// instrument. Calls are booked to `CCCCCCCCCCCCCCCC`, puts to
/// `PPPPPPPPPPPPPPPP`; a trade whose instrument is not known yet is booked to
/// the placeholder `XXXXXXXXXXXXXXXX` rather than held back.
#[verifier::when_used_as_spec(spec_resolve_portfolio)]
pub fn resolve_portfolio(record: Option<InstrumentEvent>) -> (portfolio_id: [char; 16])
    ensures
        portfolio_id == spec_resolve_portfolio(record),
        forall|i: int| 0 <= i < 16 ==> portfolio_id@[i] == portfolio_code(record),
{
    let code = match record {
        Some(instrument) => instrument.instrument_type.code(),
        None => PLACEHOLDER_CODE,
    };
    [code; 16]
}

/// The enriched record of `trade`: the trade's own fields, the portfolio
/// resolved from `record`, and `now` as the time of enrichment.
pub open spec fn spec_enrich(
    trade: TradeEvent,
    record: Option<InstrumentEvent>,
    now: u64,
) -> EnrichedTradeEvent {
    EnrichedTradeEvent {
        id: trade.id,
        instrument_id: trade.instrument_id,
        price: trade.price,
        net_quantity: trade.net_quantity,
        portfolio_id: spec_resolve_portfolio(record),
        processed_timestamp: now,
    }
}

/// Builds the enriched record of `trade` from the reference record of its
/// instrument, if there is one, and the current time.
#[verifier::when_used_as_spec(spec_enrich)]
pub fn enrich(trade: TradeEvent, record: Option<InstrumentEvent>, now: u64) -> (enriched:
    EnrichedTradeEvent)
    ensures
        enriched == spec_enrich(trade, record, now),
        enriched.spec_trade() == trade,
        forall|i: int| 0 <= i < 16 ==> enriched.portfolio_id@[i] == portfolio_code(record),
{
    EnrichedTradeEvent {
        id: trade.id,
        instrument_id: trade.instrument_id,
        price: trade.price,
        net_quantity: trade.net_quantity,
        portfolio_id: resolve_portfolio(record),
        processed_timestamp: now,
    }
}

} // verus!
