//! Identifier value types.
//!
//! Every identifier is an opaque, copyable, interned string value with
//! equality and hashing delegated to the intern cache (see the `interned`
//! module). Construction validates the string: it must be non-empty and
//! must hold at least one non-whitespace character. An instrument
//! identifier is the one composite: a symbol together with the venue that
//! quotes it, written `symbol.venue`.

use vstd::prelude::*;

use crate::errors::ValidationError;
use crate::interned::{intern, interned_chars, interned_eq, interned_hash, interned_string};

verus! {

/// The four ASCII whitespace characters identifier validation rejects.
pub open spec fn is_whitespace_char(c: char) -> bool {
    c == ' ' || c == '\t' || c == '\n' || c == '\r'
}

/// A string acceptable as an identifier value: non-empty, with at least one
/// character that is not whitespace.
pub open spec fn valid_identifier(s: Seq<char>) -> bool {
    &&& s.len() > 0
    &&& exists|i: int| 0 <= i < s.len() && !is_whitespace_char(s[i])
}

/// Executable identifier validation; says which way a string fails.
pub fn check_identifier(s: &str) -> (r: Result<(), ValidationError>)
    ensures
        r is Ok <==> valid_identifier(s@),
        s@.len() == 0 ==> r == Err::<(), ValidationError>(ValidationError::EmptyIdentifier),
        s@.len() > 0 && !valid_identifier(s@) ==> r == Err::<(), ValidationError>(
            ValidationError::WhitespaceIdentifier,
        ),
{
    let n = s.unicode_len();
    if n == 0 {
        return Err(ValidationError::EmptyIdentifier);
    }
    let mut i: usize = 0;
    while i < n
        invariant
            n == s@.len(),
            i <= n,
            forall|j: int| 0 <= j < i ==> is_whitespace_char(s@[j]),
        decreases n - i,
    {
        let c = s.get_char(i);
        if !(c == ' ' || c == '\t' || c == '\n' || c == '\r') {
            return Ok(());
        }
        i = i + 1;
    }
    Err(ValidationError::WhitespaceIdentifier)
}

/// A trader instance, the top-level owner of strategies and orders.
///
/// The value is an interned string: non-empty and not all whitespace.
#[derive(Clone, Copy, Debug)]
pub struct TraderId {
    /// Handle of the interned identifier string.
    pub value: ustr::Ustr,
}

impl View for TraderId {
    type V = Seq<char>;

    open spec fn view(&self) -> Seq<char> {
        interned_chars(self.value)
    }
}

impl TraderId {
    /// Interns the given string as an identifier value. Fails when the
    /// string is empty or all whitespace.
    pub fn new(s: &str) -> (r: Result<TraderId, ValidationError>)
        ensures
            r is Ok <==> valid_identifier(s@),
            r matches Ok(id) ==> id@ == s@,
            s@.len() == 0 ==> r == Err::<TraderId, ValidationError>(ValidationError::EmptyIdentifier),
            s@.len() > 0 && !valid_identifier(s@) ==> r == Err::<TraderId, ValidationError>(
                ValidationError::WhitespaceIdentifier,
            ),
    {
        match check_identifier(s) {
            Ok(()) => Ok(TraderId { value: intern(s) }),
            Err(e) => Err(e),
        }
    }

    /// An owned copy of the identifier string.
    pub fn to_string(&self) -> (r: String)
        ensures
            r@ == self@,
    {
        interned_string(&self.value)
    }
}

impl PartialEq for TraderId {
    fn eq(&self, other: &TraderId) -> (r: bool) {
        interned_eq(&self.value, &other.value)
    }
}

impl Eq for TraderId {

}

impl vstd::std_specs::cmp::PartialEqSpecImpl for TraderId {
    open spec fn obeys_eq_spec() -> bool {
        true
    }

    open spec fn eq_spec(&self, other: &TraderId) -> bool {
        self@ == other@
    }
}

/// A strategy instance that originates orders.
///
/// The value is an interned string: non-empty and not all whitespace.
#[derive(Clone, Copy, Debug)]
pub struct StrategyId {
    /// Handle of the interned identifier string.
    pub value: ustr::Ustr,
}

impl View for StrategyId {
    type V = Seq<char>;

    open spec fn view(&self) -> Seq<char> {
        interned_chars(self.value)
    }
}

impl StrategyId {
    /// Interns the given string as an identifier value. Fails when the
    /// string is empty or all whitespace.
    pub fn new(s: &str) -> (r: Result<StrategyId, ValidationError>)
        ensures
            r is Ok <==> valid_identifier(s@),
            r matches Ok(id) ==> id@ == s@,
            s@.len() == 0 ==> r == Err::<StrategyId, ValidationError>(ValidationError::EmptyIdentifier),
            s@.len() > 0 && !valid_identifier(s@) ==> r == Err::<StrategyId, ValidationError>(
                ValidationError::WhitespaceIdentifier,
            ),
    {
        match check_identifier(s) {
            Ok(()) => Ok(StrategyId { value: intern(s) }),
            Err(e) => Err(e),
        }
    }

    /// An owned copy of the identifier string.
    pub fn to_string(&self) -> (r: String)
        ensures
            r@ == self@,
    {
        interned_string(&self.value)
    }
}

impl PartialEq for StrategyId {
    fn eq(&self, other: &StrategyId) -> (r: bool) {
        interned_eq(&self.value, &other.value)
    }
}

impl Eq for StrategyId {

}

impl vstd::std_specs::cmp::PartialEqSpecImpl for StrategyId {
    open spec fn obeys_eq_spec() -> bool {
        true
    }

    open spec fn eq_spec(&self, other: &StrategyId) -> bool {
        self@ == other@
    }
}

/// A system client, conventionally the adapter for one venue.
///
/// The value is an interned string: non-empty and not all whitespace.
#[derive(Clone, Copy, Debug)]
pub struct ClientId {
    /// Handle of the interned identifier string.
    pub value: ustr::Ustr,
}

impl View for ClientId {
    type V = Seq<char>;

    open spec fn view(&self) -> Seq<char> {
        interned_chars(self.value)
    }
}

impl ClientId {
    /// Interns the given string as an identifier value. Fails when the
    /// string is empty or all whitespace.
    pub fn new(s: &str) -> (r: Result<ClientId, ValidationError>)
        ensures
            r is Ok <==> valid_identifier(s@),
            r matches Ok(id) ==> id@ == s@,
            s@.len() == 0 ==> r == Err::<ClientId, ValidationError>(ValidationError::EmptyIdentifier),
            s@.len() > 0 && !valid_identifier(s@) ==> r == Err::<ClientId, ValidationError>(
                ValidationError::WhitespaceIdentifier,
            ),
    {
        match check_identifier(s) {
            Ok(()) => Ok(ClientId { value: intern(s) }),
            Err(e) => Err(e),
        }
    }

    /// An owned copy of the identifier string.
    pub fn to_string(&self) -> (r: String)
        ensures
            r@ == self@,
    {
        interned_string(&self.value)
    }
}

impl PartialEq for ClientId {
    fn eq(&self, other: &ClientId) -> (r: bool) {
        interned_eq(&self.value, &other.value)
    }
}

impl Eq for ClientId {

}

impl vstd::std_specs::cmp::PartialEqSpecImpl for ClientId {
    open spec fn obeys_eq_spec() -> bool {
        true
    }

    open spec fn eq_spec(&self, other: &ClientId) -> bool {
        self@ == other@
    }
}

/// The client-assigned identifier of one order; two orders are the same order exactly when these match.
///
/// The value is an interned string: non-empty and not all whitespace.
#[derive(Clone, Copy, Debug)]
pub struct ClientOrderId {
    /// Handle of the interned identifier string.
    pub value: ustr::Ustr,
}

impl View for ClientOrderId {
    type V = Seq<char>;

    open spec fn view(&self) -> Seq<char> {
        interned_chars(self.value)
    }
}

impl ClientOrderId {
    /// Interns the given string as an identifier value. Fails when the
    /// string is empty or all whitespace.
    pub fn new(s: &str) -> (r: Result<ClientOrderId, ValidationError>)
        ensures
            r is Ok <==> valid_identifier(s@),
            r matches Ok(id) ==> id@ == s@,
            s@.len() == 0 ==> r == Err::<ClientOrderId, ValidationError>(ValidationError::EmptyIdentifier),
            s@.len() > 0 && !valid_identifier(s@) ==> r == Err::<ClientOrderId, ValidationError>(
                ValidationError::WhitespaceIdentifier,
            ),
    {
        match check_identifier(s) {
            Ok(()) => Ok(ClientOrderId { value: intern(s) }),
            Err(e) => Err(e),
        }
    }

    /// An owned copy of the identifier string.
    pub fn to_string(&self) -> (r: String)
        ensures
            r@ == self@,
    {
        interned_string(&self.value)
    }
}

impl PartialEq for ClientOrderId {
    fn eq(&self, other: &ClientOrderId) -> (r: bool) {
        interned_eq(&self.value, &other.value)
    }
}

impl Eq for ClientOrderId {

}

impl vstd::std_specs::cmp::PartialEqSpecImpl for ClientOrderId {
    open spec fn obeys_eq_spec() -> bool {
        true
    }

    open spec fn eq_spec(&self, other: &ClientOrderId) -> bool {
        self@ == other@
    }
}

/// The venue-assigned identifier of an order.
///
/// The value is an interned string: non-empty and not all whitespace.
#[derive(Clone, Copy, Debug)]
pub struct VenueOrderId {
    /// Handle of the interned identifier string.
    pub value: ustr::Ustr,
}

impl View for VenueOrderId {
    type V = Seq<char>;

    open spec fn view(&self) -> Seq<char> {
        interned_chars(self.value)
    }
}

impl VenueOrderId {
    /// Interns the given string as an identifier value. Fails when the
    /// string is empty or all whitespace.
    pub fn new(s: &str) -> (r: Result<VenueOrderId, ValidationError>)
        ensures
            r is Ok <==> valid_identifier(s@),
            r matches Ok(id) ==> id@ == s@,
            s@.len() == 0 ==> r == Err::<VenueOrderId, ValidationError>(ValidationError::EmptyIdentifier),
            s@.len() > 0 && !valid_identifier(s@) ==> r == Err::<VenueOrderId, ValidationError>(
                ValidationError::WhitespaceIdentifier,
            ),
    {
        match check_identifier(s) {
            Ok(()) => Ok(VenueOrderId { value: intern(s) }),
            Err(e) => Err(e),
        }
    }

    /// An owned copy of the identifier string.
    pub fn to_string(&self) -> (r: String)
        ensures
            r@ == self@,
    {
        interned_string(&self.value)
    }
}

impl PartialEq for VenueOrderId {
    fn eq(&self, other: &VenueOrderId) -> (r: bool) {
        interned_eq(&self.value, &other.value)
    }
}

impl Eq for VenueOrderId {

}

impl vstd::std_specs::cmp::PartialEqSpecImpl for VenueOrderId {
    open spec fn obeys_eq_spec() -> bool {
        true
    }

    open spec fn eq_spec(&self, other: &VenueOrderId) -> bool {
        self@ == other@
    }
}

/// An account held at a venue.
///
/// The value is an interned string: non-empty and not all whitespace.
#[derive(Clone, Copy, Debug)]
pub struct AccountId {
    /// Handle of the interned identifier string.
    pub value: ustr::Ustr,
}

impl View for AccountId {
    type V = Seq<char>;

    open spec fn view(&self) -> Seq<char> {
        interned_chars(self.value)
    }
}

impl AccountId {
    /// Interns the given string as an identifier value. Fails when the
    /// string is empty or all whitespace.
    pub fn new(s: &str) -> (r: Result<AccountId, ValidationError>)
        ensures
            r is Ok <==> valid_identifier(s@),
            r matches Ok(id) ==> id@ == s@,
            s@.len() == 0 ==> r == Err::<AccountId, ValidationError>(ValidationError::EmptyIdentifier),
            s@.len() > 0 && !valid_identifier(s@) ==> r == Err::<AccountId, ValidationError>(
                ValidationError::WhitespaceIdentifier,
            ),
    {
        match check_identifier(s) {
            Ok(()) => Ok(AccountId { value: intern(s) }),
            Err(e) => Err(e),
        }
    }

    /// An owned copy of the identifier string.
    pub fn to_string(&self) -> (r: String)
        ensures
            r@ == self@,
    {
        interned_string(&self.value)
    }
}

impl PartialEq for AccountId {
    fn eq(&self, other: &AccountId) -> (r: bool) {
        interned_eq(&self.value, &other.value)
    }
}

impl Eq for AccountId {

}

impl vstd::std_specs::cmp::PartialEqSpecImpl for AccountId {
    open spec fn obeys_eq_spec() -> bool {
        true
    }

    open spec fn eq_spec(&self, other: &AccountId) -> bool {
        self@ == other@
    }
}

/// A position tracked by the platform.
///
/// The value is an interned string: non-empty and not all whitespace.
#[derive(Clone, Copy, Debug)]
pub struct PositionId {
    /// Handle of the interned identifier string.
    pub value: ustr::Ustr,
}

impl View for PositionId {
    type V = Seq<char>;

    open spec fn view(&self) -> Seq<char> {
        interned_chars(self.value)
    }
}

impl PositionId {
    /// Interns the given string as an identifier value. Fails when the
    /// string is empty or all whitespace.
    pub fn new(s: &str) -> (r: Result<PositionId, ValidationError>)
        ensures
            r is Ok <==> valid_identifier(s@),
            r matches Ok(id) ==> id@ == s@,
            s@.len() == 0 ==> r == Err::<PositionId, ValidationError>(ValidationError::EmptyIdentifier),
            s@.len() > 0 && !valid_identifier(s@) ==> r == Err::<PositionId, ValidationError>(
                ValidationError::WhitespaceIdentifier,
            ),
    {
        match check_identifier(s) {
            Ok(()) => Ok(PositionId { value: intern(s) }),
            Err(e) => Err(e),
        }
    }

    /// An owned copy of the identifier string.
    pub fn to_string(&self) -> (r: String)
        ensures
            r@ == self@,
    {
        interned_string(&self.value)
    }
}

impl PartialEq for PositionId {
    fn eq(&self, other: &PositionId) -> (r: bool) {
        interned_eq(&self.value, &other.value)
    }
}

impl Eq for PositionId {

}

impl vstd::std_specs::cmp::PartialEqSpecImpl for PositionId {
    open spec fn obeys_eq_spec() -> bool {
        true
    }

    open spec fn eq_spec(&self, other: &PositionId) -> bool {
        self@ == other@
    }
}

/// A single trade (fill) reported by a venue.
///
/// The value is an interned string: non-empty and not all whitespace.
#[derive(Clone, Copy, Debug)]
pub struct TradeId {
    /// Handle of the interned identifier string.
    pub value: ustr::Ustr,
}

impl View for TradeId {
    type V = Seq<char>;

    open spec fn view(&self) -> Seq<char> {
        interned_chars(self.value)
    }
}

impl TradeId {
    /// Interns the given string as an identifier value. Fails when the
    /// string is empty or all whitespace.
    pub fn new(s: &str) -> (r: Result<TradeId, ValidationError>)
        ensures
            r is Ok <==> valid_identifier(s@),
            r matches Ok(id) ==> id@ == s@,
            s@.len() == 0 ==> r == Err::<TradeId, ValidationError>(ValidationError::EmptyIdentifier),
            s@.len() > 0 && !valid_identifier(s@) ==> r == Err::<TradeId, ValidationError>(
                ValidationError::WhitespaceIdentifier,
            ),
    {
        match check_identifier(s) {
            Ok(()) => Ok(TradeId { value: intern(s) }),
            Err(e) => Err(e),
        }
    }

    /// An owned copy of the identifier string.
    pub fn to_string(&self) -> (r: String)
        ensures
            r@ == self@,
    {
        interned_string(&self.value)
    }
}

impl PartialEq for TradeId {
    fn eq(&self, other: &TradeId) -> (r: bool) {
        interned_eq(&self.value, &other.value)
    }
}

impl Eq for TradeId {

}

impl vstd::std_specs::cmp::PartialEqSpecImpl for TradeId {
    open spec fn obeys_eq_spec() -> bool {
        true
    }

    open spec fn eq_spec(&self, other: &TradeId) -> bool {
        self@ == other@
    }
}

/// A list of orders submitted together.
///
/// The value is an interned string: non-empty and not all whitespace.
#[derive(Clone, Copy, Debug)]
pub struct OrderListId {
    /// Handle of the interned identifier string.
    pub value: ustr::Ustr,
}

impl View for OrderListId {
    type V = Seq<char>;

    open spec fn view(&self) -> Seq<char> {
        interned_chars(self.value)
    }
}

impl OrderListId {
    /// Interns the given string as an identifier value. Fails when the
    /// string is empty or all whitespace.
    pub fn new(s: &str) -> (r: Result<OrderListId, ValidationError>)
        ensures
            r is Ok <==> valid_identifier(s@),
            r matches Ok(id) ==> id@ == s@,
            s@.len() == 0 ==> r == Err::<OrderListId, ValidationError>(ValidationError::EmptyIdentifier),
            s@.len() > 0 && !valid_identifier(s@) ==> r == Err::<OrderListId, ValidationError>(
                ValidationError::WhitespaceIdentifier,
            ),
    {
        match check_identifier(s) {
            Ok(()) => Ok(OrderListId { value: intern(s) }),
            Err(e) => Err(e),
        }
    }

    /// An owned copy of the identifier string.
    pub fn to_string(&self) -> (r: String)
        ensures
            r@ == self@,
    {
        interned_string(&self.value)
    }
}

impl PartialEq for OrderListId {
    fn eq(&self, other: &OrderListId) -> (r: bool) {
        interned_eq(&self.value, &other.value)
    }
}

impl Eq for OrderListId {

}

impl vstd::std_specs::cmp::PartialEqSpecImpl for OrderListId {
    open spec fn obeys_eq_spec() -> bool {
        true
    }

    open spec fn eq_spec(&self, other: &OrderListId) -> bool {
        self@ == other@
    }
}

/// An execution algorithm that may spawn child orders.
///
/// The value is an interned string: non-empty and not all whitespace.
#[derive(Clone, Copy, Debug)]
pub struct ExecAlgorithmId {
    /// Handle of the interned identifier string.
    pub value: ustr::Ustr,
}

impl View for ExecAlgorithmId {
    type V = Seq<char>;

    open spec fn view(&self) -> Seq<char> {
        interned_chars(self.value)
    }
}

impl ExecAlgorithmId {
    /// Interns the given string as an identifier value. Fails when the
    /// string is empty or all whitespace.
    pub fn new(s: &str) -> (r: Result<ExecAlgorithmId, ValidationError>)
        ensures
            r is Ok <==> valid_identifier(s@),
            r matches Ok(id) ==> id@ == s@,
            s@.len() == 0 ==> r == Err::<ExecAlgorithmId, ValidationError>(ValidationError::EmptyIdentifier),
            s@.len() > 0 && !valid_identifier(s@) ==> r == Err::<ExecAlgorithmId, ValidationError>(
                ValidationError::WhitespaceIdentifier,
            ),
    {
        match check_identifier(s) {
            Ok(()) => Ok(ExecAlgorithmId { value: intern(s) }),
            Err(e) => Err(e),
        }
    }

    /// An owned copy of the identifier string.
    pub fn to_string(&self) -> (r: String)
        ensures
            r@ == self@,
    {
        interned_string(&self.value)
    }
}

impl PartialEq for ExecAlgorithmId {
    fn eq(&self, other: &ExecAlgorithmId) -> (r: bool) {
        interned_eq(&self.value, &other.value)
    }
}

impl Eq for ExecAlgorithmId {

}

impl vstd::std_specs::cmp::PartialEqSpecImpl for ExecAlgorithmId {
    open spec fn obeys_eq_spec() -> bool {
        true
    }

    open spec fn eq_spec(&self, other: &ExecAlgorithmId) -> bool {
        self@ == other@
    }
}

/// A ticker symbol as the venue quotes it.
///
/// The value is an interned string: non-empty and not all whitespace.
#[derive(Clone, Copy, Debug)]
pub struct Symbol {
    /// Handle of the interned identifier string.
    pub value: ustr::Ustr,
}

impl View for Symbol {
    type V = Seq<char>;

    open spec fn view(&self) -> Seq<char> {
        interned_chars(self.value)
    }
}

impl Symbol {
    /// Interns the given string as an identifier value. Fails when the
    /// string is empty or all whitespace.
    pub fn new(s: &str) -> (r: Result<Symbol, ValidationError>)
        ensures
            r is Ok <==> valid_identifier(s@),
            r matches Ok(id) ==> id@ == s@,
            s@.len() == 0 ==> r == Err::<Symbol, ValidationError>(ValidationError::EmptyIdentifier),
            s@.len() > 0 && !valid_identifier(s@) ==> r == Err::<Symbol, ValidationError>(
                ValidationError::WhitespaceIdentifier,
            ),
    {
        match check_identifier(s) {
            Ok(()) => Ok(Symbol { value: intern(s) }),
            Err(e) => Err(e),
        }
    }

    /// An owned copy of the identifier string.
    pub fn to_string(&self) -> (r: String)
        ensures
            r@ == self@,
    {
        interned_string(&self.value)
    }
}

impl PartialEq for Symbol {
    fn eq(&self, other: &Symbol) -> (r: bool) {
        interned_eq(&self.value, &other.value)
    }
}

impl Eq for Symbol {

}

impl vstd::std_specs::cmp::PartialEqSpecImpl for Symbol {
    open spec fn obeys_eq_spec() -> bool {
        true
    }

    open spec fn eq_spec(&self, other: &Symbol) -> bool {
        self@ == other@
    }
}

/// A trading venue.
///
/// The value is an interned string: non-empty and not all whitespace.
#[derive(Clone, Copy, Debug)]
pub struct Venue {
    /// Handle of the interned identifier string.
    pub value: ustr::Ustr,
}

impl View for Venue {
    type V = Seq<char>;

    open spec fn view(&self) -> Seq<char> {
        interned_chars(self.value)
    }
}

impl Venue {
    /// Interns the given string as an identifier value. Fails when the
    /// string is empty or all whitespace.
    pub fn new(s: &str) -> (r: Result<Venue, ValidationError>)
        ensures
            r is Ok <==> valid_identifier(s@),
            r matches Ok(id) ==> id@ == s@,
            s@.len() == 0 ==> r == Err::<Venue, ValidationError>(ValidationError::EmptyIdentifier),
            s@.len() > 0 && !valid_identifier(s@) ==> r == Err::<Venue, ValidationError>(
                ValidationError::WhitespaceIdentifier,
            ),
    {
        match check_identifier(s) {
            Ok(()) => Ok(Venue { value: intern(s) }),
            Err(e) => Err(e),
        }
    }

    /// An owned copy of the identifier string.
    pub fn to_string(&self) -> (r: String)
        ensures
            r@ == self@,
    {
        interned_string(&self.value)
    }
}

impl PartialEq for Venue {
    fn eq(&self, other: &Venue) -> (r: bool) {
        interned_eq(&self.value, &other.value)
    }
}

impl Eq for Venue {

}

impl vstd::std_specs::cmp::PartialEqSpecImpl for Venue {
    open spec fn obeys_eq_spec() -> bool {
        true
    }

    open spec fn eq_spec(&self, other: &Venue) -> bool {
        self@ == other@
    }
}

/// The identifier of a tradable instrument: a symbol together with the
/// venue that quotes it, written `symbol.venue`.
#[derive(Clone, Copy, Debug)]
pub struct InstrumentId {
    /// Ticker symbol part.
    pub symbol: Symbol,
    /// Venue part.
    pub venue: Venue,
}

impl View for InstrumentId {
    type V = (Seq<char>, Seq<char>);

    open spec fn view(&self) -> (Seq<char>, Seq<char>) {
        (self.symbol@, self.venue@)
    }
}

/// True when `i` is the position of the one and only dot in `s`.
pub open spec fn unique_dot_at(s: Seq<char>, i: int) -> bool {
    &&& 0 <= i < s.len()
    &&& s[i] == '.'
    &&& forall|j: int| 0 <= j < s.len() && s[j] == '.' ==> j == i
}

/// True when `s` parses as an instrument identifier: exactly one dot, and
/// both sides acceptable as identifier values.
pub open spec fn parsable_instrument_id(s: Seq<char>) -> bool {
    exists|i: int|
        unique_dot_at(s, i) && valid_identifier(s.subrange(0, i)) && valid_identifier(
            s.subrange(i + 1, s.len() as int),
        )
}

impl InstrumentId {
    /// Pairs an already validated symbol and venue.
    pub fn new(symbol: Symbol, venue: Venue) -> (r: InstrumentId)
        ensures
            r.symbol@ == symbol@,
            r.venue@ == venue@,
    {
        InstrumentId { symbol, venue }
    }

    /// Parses `symbol.venue`. Fails unless the string holds exactly one
    /// dot with a non-blank identifier on each side.
    pub fn from_str(s: &str) -> (r: Result<InstrumentId, ValidationError>)
        ensures
            r is Ok <==> parsable_instrument_id(s@),
            r matches Ok(id) ==> exists|i: int|
                unique_dot_at(s@, i) && id.symbol@ == s@.subrange(0, i) && id.venue@
                    == s@.subrange(i + 1, s@.len() as int),
            r is Err ==> r == Err::<InstrumentId, ValidationError>(
                ValidationError::MalformedInstrumentId,
            ),
    {
        let n = s.unicode_len();
        let mut dot: Option<usize> = None;
        let mut i: usize = 0;
        while i < n
            invariant
                n == s@.len(),
                i <= n,
                match dot {
                    Some(d) => d < i && s@[d as int] == '.' && forall|j: int|
                        0 <= j < i && s@[j] == '.' ==> j == d,
                    None => forall|j: int| 0 <= j < i ==> s@[j] != '.',
                },
            decreases n - i,
        {
            let c = s.get_char(i);
            if c == '.' {
                match dot {
                    Some(d) => {
                        proof {
                            assert forall|k: int| !unique_dot_at(s@, k) by {
                                if unique_dot_at(s@, k) {
                                    assert(s@[d as int] == '.');
                                    assert(s@[i as int] == '.');
                                }
                            }
                        }
                        return Err(ValidationError::MalformedInstrumentId);
                    },
                    None => {
                        dot = Some(i);
                    },
                }
            }
            i = i + 1;
        }
        let d = match dot {
            Some(d) => d,
            None => {
                return Err(ValidationError::MalformedInstrumentId);
            },
        };
        proof {
            assert(unique_dot_at(s@, d as int));
            assert forall|k: int| unique_dot_at(s@, k) implies k == d as int by {
                assert(s@[k] == '.');
            }
        }
        let sym_part = s.substring_char(0, d);
        let ven_part = s.substring_char(d + 1, n);
        let symbol = match Symbol::new(sym_part) {
            Ok(sym) => sym,
            Err(_) => {
                return Err(ValidationError::MalformedInstrumentId);
            },
        };
        let venue = match Venue::new(ven_part) {
            Ok(ven) => ven,
            Err(_) => {
                return Err(ValidationError::MalformedInstrumentId);
            },
        };
        proof {
            assert(parsable_instrument_id(s@));
        }
        Ok(InstrumentId { symbol, venue })
    }

    /// The identifier written back as `symbol.venue`.
    pub fn to_string(&self) -> (r: String)
        ensures
            r@ == self.symbol@ + "."@ + self.venue@,
    {
        let mut r = self.symbol.to_string();
        r.append(".");
        let ven = self.venue.to_string();
        r.append(ven.as_str());
        r
    }
}

impl PartialEq for InstrumentId {
    fn eq(&self, other: &InstrumentId) -> (r: bool) {
        interned_eq(&self.symbol.value, &other.symbol.value) && interned_eq(
            &self.venue.value,
            &other.venue.value,
        )
    }
}

impl Eq for InstrumentId {

}

impl vstd::std_specs::cmp::PartialEqSpecImpl for InstrumentId {
    open spec fn obeys_eq_spec() -> bool {
        true
    }

    open spec fn eq_spec(&self, other: &InstrumentId) -> bool {
        self@ == other@
    }
}

/// An identity for one event, unique across the platform. The value is
/// carried as the 128-bit number a standard universally-unique identifier
/// encodes; producing fresh ones is the surrounding runtime's affair.
#[derive(Clone, Copy, Debug, PartialEq, Eq, Structural)]
pub struct UUID4 {
    /// The 128 bits of the identifier.
    pub value: u128,
}

impl UUID4 {
    /// Wraps the given 128-bit value.
    pub fn new(value: u128) -> (r: UUID4)
        ensures
            r.value == value,
    {
        UUID4 { value }
    }
}

impl Default for UUID4 {
    fn default() -> (r: UUID4)
        ensures
            r.value == 0,
    {
        UUID4 { value: 0 }
    }
}

/// Hash of the interned identifier value, as the intern cache precomputed
/// it. The hasher's keys are drawn once per process, so no value is pinned
/// here; within one process, equal identifier strings share one cache entry
/// and therefore one hash.
pub fn client_id_hash(id: &ClientId) -> u64 {
    interned_hash(&id.value)
}

} // verus!
