//! Error taxonomy of the order model.
//!
//! Validation errors are recoverable and reported to the caller at
//! construction time; they never leave a value partially constructed.
//! Order errors cover, besides wrapped validation failures, producer-side
//! contract violations (an initialization event missing a field the target
//! variant requires) and defensive rejections of events that would break an
//! order's invariants or move its status backward. A rejected event leaves
//! the order unchanged.

use vstd::prelude::*;

verus! {

/// A recoverable failure to construct a value from caller-supplied input.
#[derive(Clone, Copy, Debug, PartialEq, Eq, Structural)]
pub enum ValidationError {
    /// An identifier string was empty.
    EmptyIdentifier,
    /// An identifier string consisted only of whitespace.
    WhitespaceIdentifier,
    /// An instrument identifier string was not of the form `symbol.venue`
    /// with exactly one dot and non-blank sides.
    MalformedInstrumentId,
    /// An order quantity was zero.
    NonPositiveQuantity,
    /// A scaled quantity would not fit the fixed-point representation.
    QuantityOutOfRange,
    /// A scaled price would not fit the fixed-point representation.
    PriceOutOfRange,
    /// Two execution-algorithm parameters shared one key.
    DuplicateExecParam,
}

impl ValidationError {
    /// A short description of the failure.
    pub fn message(&self) -> (r: &'static str)
        ensures
            *self == ValidationError::EmptyIdentifier ==> r@ == "identifier value was empty"@,
            *self == ValidationError::WhitespaceIdentifier ==> r@
                == "identifier value was all whitespace"@,
            *self == ValidationError::MalformedInstrumentId ==> r@
                == "instrument id was not of the form `symbol.venue`"@,
            *self == ValidationError::NonPositiveQuantity ==> r@ == "order quantity was not positive"@,
            *self == ValidationError::QuantityOutOfRange ==> r@
                == "quantity does not fit the fixed-point range"@,
            *self == ValidationError::PriceOutOfRange ==> r@
                == "price does not fit the fixed-point range"@,
            *self == ValidationError::DuplicateExecParam ==> r@
                == "execution-algorithm parameter keys were not unique"@,
    {
        match self {
            ValidationError::EmptyIdentifier => "identifier value was empty",
            ValidationError::WhitespaceIdentifier => "identifier value was all whitespace",
            ValidationError::MalformedInstrumentId => "instrument id was not of the form `symbol.venue`",
            ValidationError::NonPositiveQuantity => "order quantity was not positive",
            ValidationError::QuantityOutOfRange => "quantity does not fit the fixed-point range",
            ValidationError::PriceOutOfRange => "price does not fit the fixed-point range",
            ValidationError::DuplicateExecParam => "execution-algorithm parameter keys were not unique",
        }
    }
}

/// A failure to construct an order or to apply a lifecycle event to it.
#[derive(Clone, Copy, Debug, PartialEq, Eq, Structural)]
pub enum OrderError {
    /// A construction input failed validation.
    Validation(ValidationError),
    /// The initialization event carried no trigger price, which the target
    /// stop variant requires: a producer-side contract violation.
    MissingTriggerPrice,
    /// The initialization event carried no trigger type, which the target
    /// stop variant requires: a producer-side contract violation.
    MissingTriggerType,
    /// The event's transition is not allowed from the order's status.
    InvalidStatusTransition,
    /// The event's timestamp precedes the order's last update.
    StaleEventTimestamp,
    /// An initialization event was applied to an already built order.
    AlreadyInitialized,
    /// A fill carried a zero last quantity.
    FillNotPositive,
    /// A fill's last quantity exceeded the order's leaves quantity.
    FillExceedsLeaves,
    /// A fill's quantity or price precision did not match the order's.
    FillPrecisionMismatch,
    /// A fill carried a negative last price, which average-price
    /// accounting does not admit.
    NegativeFillPrice,
}

impl OrderError {
    /// A short description of the failure.
    pub fn message(&self) -> (r: &'static str)
        ensures
            *self == OrderError::MissingTriggerPrice ==> r@
                == "`trigger_price` was `None` for `StopMarketOrder`"@,
            *self == OrderError::MissingTriggerType ==> r@
                == "`trigger_type` was `None` for `StopMarketOrder`"@,
            *self == OrderError::InvalidStatusTransition ==> r@
                == "event transition not allowed from the current order status"@,
            *self == OrderError::StaleEventTimestamp ==> r@
                == "event timestamp precedes the order's last update"@,
            *self == OrderError::AlreadyInitialized ==> r@
                == "initialization event applied to an already built order"@,
            *self == OrderError::FillNotPositive ==> r@ == "fill carried a zero last quantity"@,
            *self == OrderError::FillExceedsLeaves ==> r@
                == "fill quantity exceeds the leaves quantity"@,
            *self == OrderError::FillPrecisionMismatch ==> r@
                == "fill precision does not match the order's"@,
            *self == OrderError::NegativeFillPrice ==> r@ == "fill carried a negative last price"@,
            self matches OrderError::Validation(v) ==> r@ == v.message_spec(),
    {
        match self {
            OrderError::Validation(v) => v.message(),
            OrderError::MissingTriggerPrice => "`trigger_price` was `None` for `StopMarketOrder`",
            OrderError::MissingTriggerType => "`trigger_type` was `None` for `StopMarketOrder`",
            OrderError::InvalidStatusTransition => "event transition not allowed from the current order status",
            OrderError::StaleEventTimestamp => "event timestamp precedes the order's last update",
            OrderError::AlreadyInitialized => "initialization event applied to an already built order",
            OrderError::FillNotPositive => "fill carried a zero last quantity",
            OrderError::FillExceedsLeaves => "fill quantity exceeds the leaves quantity",
            OrderError::FillPrecisionMismatch => "fill precision does not match the order's",
            OrderError::NegativeFillPrice => "fill carried a negative last price",
        }
    }
}

/// The text [`ValidationError::message`] returns, at the specification level.
pub open spec fn validation_message(v: ValidationError) -> Seq<char> {
    match v {
        ValidationError::EmptyIdentifier => "identifier value was empty"@,
        ValidationError::WhitespaceIdentifier => "identifier value was all whitespace"@,
        ValidationError::MalformedInstrumentId => "instrument id was not of the form `symbol.venue`"@,
        ValidationError::NonPositiveQuantity => "order quantity was not positive"@,
        ValidationError::QuantityOutOfRange => "quantity does not fit the fixed-point range"@,
        ValidationError::PriceOutOfRange => "price does not fit the fixed-point range"@,
        ValidationError::DuplicateExecParam => "execution-algorithm parameter keys were not unique"@,
    }
}

impl ValidationError {
    /// Spec-level alias for [`Self::message`].
    pub open spec fn message_spec(&self) -> Seq<char> {
        validation_message(*self)
    }
}

} // verus!
