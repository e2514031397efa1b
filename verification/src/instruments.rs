//! Instrument definitions.
//!
//! An instrument is looked up by instrument id elsewhere, never held by an
//! order; risk and execution layers consume its precision, size and fee
//! schedule to validate orders built from this crate's core. The margin
//! and fee rates are exact decimal values of an outside fixed-point
//! decimal type, carried through opaquely.

use vstd::prelude::*;

use crate::enums::{AssetClass, AssetType, OptionKind};
use crate::errors::ValidationError;
use crate::events::UnixNanos;
use crate::identifiers::{valid_identifier, InstrumentId, Symbol};
use crate::interned::{intern, interned_chars, interned_eq, interned_hash, interned_string};
use crate::types::{Price, Quantity};

verus! {

#[verifier::external_type_specification]
#[verifier::external_body]
pub struct ExDecimal(rust_decimal::Decimal);

/// A currency, identified by its interned code (for example `USD`).
#[derive(Clone, Copy, Debug)]
pub struct Currency {
    /// Handle of the interned currency code.
    pub code: ustr::Ustr,
}

impl View for Currency {
    type V = Seq<char>;

    open spec fn view(&self) -> Seq<char> {
        interned_chars(self.code)
    }
}

impl Currency {
    /// Interns the given code. Fails when the string is empty or all
    /// whitespace.
    pub fn new(code: &str) -> (r: Result<Currency, ValidationError>)
        ensures
            r is Ok <==> valid_identifier(code@),
            r matches Ok(c) ==> c@ == code@,
    {
        match crate::identifiers::check_identifier(code) {
            Ok(()) => Ok(Currency { code: intern(code) }),
            Err(e) => Err(e),
        }
    }

    /// An owned copy of the currency code.
    pub fn to_string(&self) -> (r: String)
        ensures
            r@ == self@,
    {
        interned_string(&self.code)
    }
}

impl PartialEq for Currency {
    fn eq(&self, other: &Currency) -> (r: bool) {
        interned_eq(&self.code, &other.code)
    }
}

impl Eq for Currency {

}

impl vstd::std_specs::cmp::PartialEqSpecImpl for Currency {
    open spec fn obeys_eq_spec() -> bool {
        true
    }

    open spec fn eq_spec(&self, other: &Currency) -> bool {
        self@ == other@
    }
}

/// An options contract instrument definition.
pub struct OptionsContract {
    /// Identifier of the instrument.
    pub id: InstrumentId,
    /// Raw symbol as the venue quotes it.
    pub raw_symbol: Symbol,
    /// Broad asset class of the underlying.
    pub asset_class: AssetClass,
    /// Ticker of the underlying.
    pub underlying: String,
    /// Whether the contract is a call or a put.
    pub option_kind: OptionKind,
    /// Expiration timestamp.
    pub expiration: UnixNanos,
    /// Strike price.
    pub strike_price: Price,
    /// Currency the contract quotes and settles in.
    pub currency: Currency,
    /// Decimal digits of the price.
    pub price_precision: u8,
    /// Minimum price step.
    pub price_increment: Price,
    /// Standard lot size, if the venue defines one.
    pub lot_size: Option<Quantity>,
    /// Largest order quantity admitted, if bounded.
    pub max_quantity: Option<Quantity>,
    /// Smallest order quantity admitted, if bounded.
    pub min_quantity: Option<Quantity>,
    /// Highest price admitted, if bounded.
    pub max_price: Option<Price>,
    /// Lowest price admitted, if bounded.
    pub min_price: Option<Price>,
    /// Initial margin rate.
    pub margin_init: rust_decimal::Decimal,
    /// Maintenance margin rate.
    pub margin_maint: rust_decimal::Decimal,
    /// Fee rate paid when providing liquidity.
    pub maker_fee: rust_decimal::Decimal,
    /// Fee rate paid when taking liquidity.
    pub taker_fee: rust_decimal::Decimal,
}

impl OptionsContract {
    /// Gathers an options contract definition from its parts.
    pub fn new(
        id: InstrumentId,
        raw_symbol: Symbol,
        asset_class: AssetClass,
        underlying: String,
        option_kind: OptionKind,
        expiration: UnixNanos,
        strike_price: Price,
        currency: Currency,
        price_precision: u8,
        price_increment: Price,
        lot_size: Option<Quantity>,
        max_quantity: Option<Quantity>,
        min_quantity: Option<Quantity>,
        max_price: Option<Price>,
        min_price: Option<Price>,
        margin_init: rust_decimal::Decimal,
        margin_maint: rust_decimal::Decimal,
        maker_fee: rust_decimal::Decimal,
        taker_fee: rust_decimal::Decimal,
    ) -> (r: OptionsContract)
        ensures
            r.id@ == id@,
            r.raw_symbol@ == raw_symbol@,
            r.asset_class == asset_class,
            r.underlying@ == underlying@,
            r.option_kind == option_kind,
            r.expiration == expiration,
            r.strike_price == strike_price,
            r.currency@ == currency@,
            r.price_precision == price_precision,
            r.price_increment == price_increment,
            r.lot_size == lot_size,
            r.max_quantity == max_quantity,
            r.min_quantity == min_quantity,
            r.max_price == max_price,
            r.min_price == min_price,
            r.margin_init == margin_init,
            r.margin_maint == margin_maint,
            r.maker_fee == maker_fee,
            r.taker_fee == taker_fee,
    {
        OptionsContract {
            id,
            raw_symbol,
            asset_class,
            underlying,
            option_kind,
            expiration,
            strike_price,
            currency,
            price_precision,
            price_increment,
            lot_size,
            max_quantity,
            min_quantity,
            max_price,
            min_price,
            margin_init,
            margin_maint,
            maker_fee,
            taker_fee,
        }
    }

    /// Identifier of the instrument.
    pub fn id(&self) -> (r: &InstrumentId)
        ensures
            r == &self.id,
    {
        &self.id
    }

    /// Raw symbol as the venue quotes it.
    pub fn raw_symbol(&self) -> (r: &Symbol)
        ensures
            r == &self.raw_symbol,
    {
        &self.raw_symbol
    }

    /// Broad asset class of the underlying.
    pub fn asset_class(&self) -> (r: AssetClass)
        ensures
            r == self.asset_class,
    {
        self.asset_class
    }

    /// Contract form: always an option.
    pub fn asset_type(&self) -> (r: AssetType)
        ensures
            r == AssetType::Option,
    {
        AssetType::Option
    }

    /// Currency the contract quotes in.
    pub fn quote_currency(&self) -> (r: &Currency)
        ensures
            r == &self.currency,
    {
        &self.currency
    }

    /// Base currency: an options contract has none.
    pub fn base_currency(&self) -> (r: Option<&Currency>)
        ensures
            r is None,
    {
        None
    }

    /// Currency the contract settles in: the quote currency.
    pub fn settlement_currency(&self) -> (r: &Currency)
        ensures
            r == &self.currency,
    {
        &self.currency
    }

    /// Whether the contract is inverse: never, for this form.
    pub fn is_inverse(&self) -> (r: bool)
        ensures
            r == false,
    {
        false
    }

    /// Decimal digits of the price.
    pub fn price_precision(&self) -> (r: u8)
        ensures
            r == self.price_precision,
    {
        self.price_precision
    }

    /// Decimal digits of the size: contracts trade in whole units.
    pub fn size_precision(&self) -> (r: u8)
        ensures
            r == 0,
    {
        0
    }

    /// Minimum price step.
    pub fn price_increment(&self) -> (r: Price)
        ensures
            r == self.price_increment,
    {
        self.price_increment
    }

    /// Minimum size step: one whole contract.
    pub fn size_increment(&self) -> (r: Quantity)
        ensures
            r == (Quantity { raw: 1, precision: 0 }),
    {
        Quantity::from_raw(1, 0)
    }

    /// Contract multiplier: one.
    pub fn multiplier(&self) -> (r: Quantity)
        ensures
            r == (Quantity { raw: 1, precision: 0 }),
    {
        Quantity::from_raw(1, 0)
    }

    /// Standard lot size, if the venue defines one.
    pub fn lot_size(&self) -> (r: Option<Quantity>)
        ensures
            r == self.lot_size,
    {
        self.lot_size
    }

    /// Largest order quantity admitted, if bounded.
    pub fn max_quantity(&self) -> (r: Option<Quantity>)
        ensures
            r == self.max_quantity,
    {
        self.max_quantity
    }

    /// Smallest order quantity admitted, if bounded.
    pub fn min_quantity(&self) -> (r: Option<Quantity>)
        ensures
            r == self.min_quantity,
    {
        self.min_quantity
    }

    /// Highest price admitted, if bounded.
    pub fn max_price(&self) -> (r: Option<Price>)
        ensures
            r == self.max_price,
    {
        self.max_price
    }

    /// Lowest price admitted, if bounded.
    pub fn min_price(&self) -> (r: Option<Price>)
        ensures
            r == self.min_price,
    {
        self.min_price
    }

    /// Initial margin rate.
    pub fn margin_init(&self) -> (r: rust_decimal::Decimal)
        ensures
            r == self.margin_init,
    {
        self.margin_init
    }

    /// Maintenance margin rate.
    pub fn margin_maint(&self) -> (r: rust_decimal::Decimal)
        ensures
            r == self.margin_maint,
    {
        self.margin_maint
    }

    /// Fee rate paid when providing liquidity.
    pub fn maker_fee(&self) -> (r: rust_decimal::Decimal)
        ensures
            r == self.maker_fee,
    {
        self.maker_fee
    }

    /// Fee rate paid when taking liquidity.
    pub fn taker_fee(&self) -> (r: rust_decimal::Decimal)
        ensures
            r == self.taker_fee,
    {
        self.taker_fee
    }
}

impl OptionsContract {
    /// Hash of the instrument id alone, for hosts that key maps by
    /// contract the way [`Self::eq`] compares them. The values come from
    /// the intern cache, whose hasher draws its keys per process, so no
    /// value is pinned here; within one process, contracts with equal ids
    /// hash equal.
    pub fn id_hash(&self) -> u64 {
        let sym = interned_hash(&self.id.symbol.value);
        let ven = interned_hash(&self.id.venue.value);
        sym ^ ((ven << 1) | (ven >> 63))
    }
}

impl PartialEq for OptionsContract {
    fn eq(&self, other: &OptionsContract) -> (r: bool) {
        interned_eq(&self.id.symbol.value, &other.id.symbol.value) && interned_eq(
            &self.id.venue.value,
            &other.id.venue.value,
        )
    }
}

impl Eq for OptionsContract {

}

impl vstd::std_specs::cmp::PartialEqSpecImpl for OptionsContract {
    open spec fn obeys_eq_spec() -> bool {
        true
    }

    open spec fn eq_spec(&self, other: &OptionsContract) -> bool {
        self.id@ == other.id@
    }
}

/// Identity law of instruments: two options contracts are equal exactly
/// when their instrument ids match; no other field enters the comparison.
pub proof fn lemma_contract_eq_iff_id(a: OptionsContract, b: OptionsContract)
    ensures
        vstd::std_specs::cmp::PartialEqSpec::eq_spec(&a, &b) <==> a.id@ == b.id@,
{
}

} // verus!
