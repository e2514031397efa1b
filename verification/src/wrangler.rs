//! Preparation of trade-tick batch decoding.
//!
//! The wrangler validates an instrument identifier and fixes the price and
//! size precisions a batch of encoded trade ticks is to be decoded under,
//! together with the string-keyed metadata the decoder consumes. The
//! decoding of the columnar byte batches themselves is an outside
//! collaborator's affair and stays outside this crate.

use vstd::prelude::*;

use crate::errors::ValidationError;
use crate::identifiers::{parsable_instrument_id, unique_dot_at, InstrumentId};

verus! {

/// The character of one decimal digit.
pub open spec fn digit_char(d: nat) -> char {
    if d == 0 {
        '0'
    } else if d == 1 {
        '1'
    } else if d == 2 {
        '2'
    } else if d == 3 {
        '3'
    } else if d == 4 {
        '4'
    } else if d == 5 {
        '5'
    } else if d == 6 {
        '6'
    } else if d == 7 {
        '7'
    } else if d == 8 {
        '8'
    } else {
        '9'
    }
}

/// The decimal digits of `n`, most significant first, without leading
/// zeros (the number zero is the single digit `0`).
pub open spec fn dec_chars(n: nat) -> Seq<char>
    decreases n,
{
    if n < 10 {
        seq![digit_char(n)]
    } else {
        dec_chars(n / 10).push(digit_char(n % 10))
    }
}

/// The single-character string of one decimal digit.
fn digit_str(d: u8) -> (r: &'static str)
    requires
        d < 10,
    ensures
        r@ == seq![digit_char(d as nat)],
{
    proof {
        reveal_strlit("0");
        reveal_strlit("1");
        reveal_strlit("2");
        reveal_strlit("3");
        reveal_strlit("4");
        reveal_strlit("5");
        reveal_strlit("6");
        reveal_strlit("7");
        reveal_strlit("8");
        reveal_strlit("9");
    }
    let r = match d {
        0 => "0",
        1 => "1",
        2 => "2",
        3 => "3",
        4 => "4",
        5 => "5",
        6 => "6",
        7 => "7",
        8 => "8",
        _ => "9",
    };
    proof {
        assert(r@ =~= seq![digit_char(d as nat)]);
    }
    r
}

/// Writes a byte-sized number in decimal.
pub fn u8_to_string(n: u8) -> (r: String)
    ensures
        r@ == dec_chars(n as nat),
{
    let mut s = String::new();
    if n >= 100 {
        s.append(digit_str(n / 100));
        s.append(digit_str((n / 10) % 10));
        proof {
            assert(n / 100 < 10);
            assert((n as nat) / 10 / 10 == (n as nat) / 100) by (nonlinear_arith);
            assert((n as nat) / 10 >= 10);
            assert(dec_chars((n as nat) / 10) == dec_chars((n as nat) / 100).push(
                digit_char(((n as nat) / 10) % 10),
            ));
        }
    } else if n >= 10 {
        s.append(digit_str(n / 10));
    }
    s.append(digit_str(n % 10));
    proof {
        reveal_with_fuel(dec_chars, 4);
        assert(s@ =~= dec_chars(n as nat));
    }
    s
}

/// The metadata the trade-tick decoder consumes: the instrument id under
/// `instrument_id`, and the two precisions written in decimal.
pub open spec fn wrangler_metadata(sym: Seq<char>, ven: Seq<char>, pp: u8, sp: u8) -> Seq<
    (Seq<char>, Seq<char>),
> {
    seq![
        ("instrument_id"@, sym + "."@ + ven),
        ("price_precision"@, dec_chars(pp as nat)),
        ("size_precision"@, dec_chars(sp as nat)),
    ]
}

/// Fixes the instrument and precisions under which encoded trade-tick
/// batches are decoded, and carries the metadata the decoder consumes.
pub struct TradeTickDataWrangler {
    /// Instrument the ticks belong to.
    pub instrument_id: InstrumentId,
    /// Decimal digits of tick prices.
    pub price_precision: u8,
    /// Decimal digits of tick sizes.
    pub size_precision: u8,
    /// String-keyed metadata handed to the decoder.
    pub metadata: Vec<(String, String)>,
}

impl TradeTickDataWrangler {
    /// Builds a wrangler from an instrument identifier string and the two
    /// precisions. Fails when the string does not parse as `symbol.venue`.
    pub fn new(instrument_id: &str, price_precision: u8, size_precision: u8) -> (r: Result<
        TradeTickDataWrangler,
        ValidationError,
    >)
        ensures
            r is Ok <==> parsable_instrument_id(instrument_id@),
            r is Err ==> r == Err::<TradeTickDataWrangler, ValidationError>(
                ValidationError::MalformedInstrumentId,
            ),
            r matches Ok(w) ==> exists|i: int|
                unique_dot_at(instrument_id@, i) && w.instrument_id.symbol@ == instrument_id@
                    .subrange(0, i) && w.instrument_id.venue@ == instrument_id@.subrange(
                    i + 1,
                    instrument_id@.len() as int,
                ),
            r matches Ok(w) ==> w.price_precision == price_precision && w.size_precision
                == size_precision && w.metadata@.map_values(|p: (String, String)| (p.0@, p.1@))
                == wrangler_metadata(
                w.instrument_id.symbol@,
                w.instrument_id.venue@,
                price_precision,
                size_precision,
            ),
    {
        let id = match InstrumentId::from_str(instrument_id) {
            Ok(id) => id,
            Err(e) => {
                return Err(e);
            },
        };
        let mut metadata: Vec<(String, String)> = Vec::new();
        metadata.push(("instrument_id".to_owned(), id.to_string()));
        metadata.push(("price_precision".to_owned(), u8_to_string(price_precision)));
        metadata.push(("size_precision".to_owned(), u8_to_string(size_precision)));
        let w = TradeTickDataWrangler {
            instrument_id: id,
            price_precision,
            size_precision,
            metadata,
        };
        proof {
            assert(w.metadata@.map_values(|p: (String, String)| (p.0@, p.1@))
                =~= wrangler_metadata(
                w.instrument_id.symbol@,
                w.instrument_id.venue@,
                price_precision,
                size_precision,
            ));
        }
        Ok(w)
    }

    /// The instrument identifier written back as `symbol.venue`.
    pub fn instrument_id(&self) -> (r: String)
        ensures
            r@ == self.instrument_id.symbol@ + "."@ + self.instrument_id.venue@,
    {
        self.instrument_id.to_string()
    }

    /// Decimal digits of tick prices.
    pub fn price_precision(&self) -> (r: u8)
        ensures
            r == self.price_precision,
    {
        self.price_precision
    }

    /// Decimal digits of tick sizes.
    pub fn size_precision(&self) -> (r: u8)
        ensures
            r == self.size_precision,
    {
        self.size_precision
    }

    /// Read-only view of the metadata handed to the decoder.
    pub fn metadata(&self) -> (r: &Vec<(String, String)>)
        ensures
            r == &self.metadata,
    {
        &self.metadata
    }
}

} // verus!
