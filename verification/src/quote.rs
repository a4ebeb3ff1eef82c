//! Quote ticks over fixed-point prices and sizes.
//!
//! Prices and quantities are fixed-point values: a raw integer count at the
//! fixed scale together with the decimal precision they are displayed at.

use vstd::prelude::*;
use vstd::string::StringExecFns;
use crate::model::InstrumentId;
use crate::text::{append_dec, append_frac, dec_seq, frac_seq, pow10, pow10_spec};

verus! {

/// The number of decimal places of the fixed-point scale raw values count in.
pub const FIXED_PRECISION: u8 = 9;

/// A fixed-point price: `raw` counts units of ten to the minus
/// [`FIXED_PRECISION`]; `precision` is the display precision.
#[derive(Clone, Copy, Debug, PartialEq, Eq, Structural)]
pub struct Price {
    pub raw: i64,
    pub precision: u8,
}

impl Price {
    pub fn from_raw(raw: i64, precision: u8) -> (r: Self)
        ensures
            r == (Price { raw, precision }),
    {
        Price { raw, precision }
    }
}

/// A fixed-point size, never negative.
#[derive(Clone, Copy, Debug, PartialEq, Eq, Structural)]
pub struct Quantity {
    pub raw: u64,
    pub precision: u8,
}

impl Quantity {
    pub fn from_raw(raw: u64, precision: u8) -> (r: Self)
        ensures
            r == (Quantity { raw, precision }),
    {
        Quantity { raw, precision }
    }
}

/// Which price a caller wants extracted from a quote.
#[derive(Clone, Copy, Debug, PartialEq, Eq, Structural)]
pub enum PriceType {
    Bid,
    Ask,
    Mid,
    Last,
}

/// The display precision of a mid price: one digit finer than the quote's
/// own, capped at the fixed scale.
pub open spec fn mid_precision(p: u8) -> u8 {
    if p + 1 <= FIXED_PRECISION {
        (p + 1) as u8
    } else {
        FIXED_PRECISION
    }
}

/// The midpoint of two raw prices, rounded toward zero as machine division
/// rounds.
pub open spec fn mid_raw(b: int, a: int) -> int {
    if b + a >= 0 {
        (b + a) / 2
    } else {
        -((-(b + a)) / 2)
    }
}

/// The decimal text of a fixed-point value: the whole part at the fixed
/// scale, then — unless the precision is zero — a point and the first
/// `precision` fractional digits (truncated), with a leading minus for
/// negative values.
pub open spec fn fixed_display(raw: int, precision: nat) -> Seq<char> {
    let mag = (if raw >= 0 {
        raw
    } else {
        -raw
    }) as nat;
    let whole = mag / pow10_spec(FIXED_PRECISION as nat);
    let frac = (mag % pow10_spec(FIXED_PRECISION as nat)) / pow10_spec(
        (FIXED_PRECISION as nat - precision) as nat,
    );
    (if raw < 0 {
        "-"@
    } else {
        Seq::<char>::empty()
    }) + dec_seq(whole) + (if precision == 0 {
        Seq::<char>::empty()
    } else {
        "."@ + frac_seq(frac, precision)
    })
}

/// Append the text of a non-negative fixed-point magnitude.
fn append_fixed_mag(out: &mut String, mag: u64, precision: u8)
    requires
        precision <= FIXED_PRECISION,
    ensures
        final(out)@ == old(out)@ + fixed_display(mag as int, precision as nat),
{
    let scale: u64 = pow10(FIXED_PRECISION);
    let whole: u64 = mag / scale;
    let frac: u64 = (mag % scale) / pow10(FIXED_PRECISION - precision);
    append_dec(out, whole);
    if precision > 0 {
        out.append(".");
        append_frac(out, frac, precision);
    }
    proof {
        assert(out@ =~= old(out)@ + fixed_display(mag as int, precision as nat));
    }
}

/// Append the text of a fixed-point price, sign included.
fn append_fixed(out: &mut String, raw: i64, precision: u8)
    requires
        precision <= FIXED_PRECISION,
    ensures
        final(out)@ == old(out)@ + fixed_display(raw as int, precision as nat),
{
    if raw < 0 {
        out.append("-");
        let mag: u64 = (-(raw as i128)) as u64;
        append_fixed_mag(out, mag, precision);
        proof {
            assert(out@ =~= old(out)@ + fixed_display(raw as int, precision as nat));
        }
    } else {
        append_fixed_mag(out, raw as u64, precision);
        proof {
            assert(out@ =~= old(out)@ + fixed_display(raw as int, precision as nat));
        }
    }
}

/// A single quote tick in a financial market: best bid and ask with their
/// sizes at one instant.
#[derive(Debug, PartialEq, Eq)]
pub struct QuoteTick {
    pub instrument_id: InstrumentId,
    pub bid: Price,
    pub ask: Price,
    pub bid_size: Quantity,
    pub ask_size: Quantity,
    pub ts_event: u64,
    pub ts_init: u64,
}

/// The display text of a quote: instrument, bid, ask, both sizes and the
/// event time, comma separated.
pub open spec fn quote_display(t: QuoteTick) -> Seq<char> {
    t.instrument_id.value@ + ","@ + fixed_display(t.bid.raw as int, t.bid.precision as nat) + ","@
        + fixed_display(t.ask.raw as int, t.ask.precision as nat) + ","@ + fixed_display(
        t.bid_size.raw as int,
        t.bid_size.precision as nat,
    ) + ","@ + fixed_display(t.ask_size.raw as int, t.ask_size.precision as nat) + ","@ + dec_seq(
        t.ts_event as nat,
    )
}

impl QuoteTick {
    /// The text form of the quote, each field at its own display precision.
    pub fn to_string(&self) -> (s: String)
        requires
            self.bid.precision <= FIXED_PRECISION,
            self.ask.precision <= FIXED_PRECISION,
            self.bid_size.precision <= FIXED_PRECISION,
            self.ask_size.precision <= FIXED_PRECISION,
        ensures
            s@ == quote_display(*self),
    {
        let mut s = String::new();
        s.append(self.instrument_id.value.as_str());
        s.append(",");
        append_fixed(&mut s, self.bid.raw, self.bid.precision);
        s.append(",");
        append_fixed(&mut s, self.ask.raw, self.ask.precision);
        s.append(",");
        append_fixed_mag(&mut s, self.bid_size.raw, self.bid_size.precision);
        s.append(",");
        append_fixed_mag(&mut s, self.ask_size.raw, self.ask_size.precision);
        s.append(",");
        append_dec(&mut s, self.ts_event);
        proof {
            assert(s@ =~= quote_display(*self));
        }
        s
    }

    /// Build a quote. Bid and ask, and the two sizes, must agree on their
    /// precision.
    pub fn new(
        instrument_id: InstrumentId,
        bid: Price,
        ask: Price,
        bid_size: Quantity,
        ask_size: Quantity,
        ts_event: u64,
        ts_init: u64,
    ) -> (r: Self)
        requires
            bid.precision == ask.precision,
            bid_size.precision == ask_size.precision,
        ensures
            r == (QuoteTick { instrument_id, bid, ask, bid_size, ask_size, ts_event, ts_init }),
    {
        QuoteTick { instrument_id, bid, ask, bid_size, ask_size, ts_event, ts_init }
    }

    /// Extract the bid, the ask, or their midpoint. The midpoint is the
    /// truncated mean of the raw values, displayed one digit finer than the
    /// quote, capped at the fixed scale.
    pub fn extract_price(&self, price_type: PriceType) -> (r: Price)
        requires
            price_type is Bid || price_type is Ask || price_type is Mid,
            price_type is Mid ==> i64::MIN < self.bid.raw + self.ask.raw <= i64::MAX,
        ensures
            price_type is Bid ==> r == self.bid,
            price_type is Ask ==> r == self.ask,
            price_type is Mid ==> r.raw == mid_raw(self.bid.raw as int, self.ask.raw as int)
                && r.precision == mid_precision(self.bid.precision),
    {
        match price_type {
            PriceType::Bid => self.bid,
            PriceType::Ask => self.ask,
            _ => {
                let sum: i64 = self.bid.raw + self.ask.raw;
                let half: i64 = if sum >= 0 {
                    ((sum as u64) / 2) as i64
                } else {
                    -((((-sum) as u64) / 2) as i64)
                };
                let precision: u8 = if self.bid.precision < FIXED_PRECISION {
                    self.bid.precision + 1
                } else {
                    FIXED_PRECISION
                };
                Price { raw: half, precision }
            },
        }
    }
}

} // verus!
