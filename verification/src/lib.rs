//! In-memory model of a trading order's lifecycle: the shared order state
//! container, the capability interface every order variant implements, and
//! the event-application protocol that mutates or reconstructs an order from
//! a sequence of lifecycle events.

pub mod base;
pub mod copies;
pub mod enums;
pub mod events;
pub mod errors;
pub mod identifiers;
pub mod instruments;
pub mod interned;
pub mod market;
pub mod order_core;
pub mod stop_market;
pub mod types;
pub mod wrangler;
