//! A market-data client core: decodes heterogeneous feed frames, locates
//! the order-book payload inside the exchange envelope, and derives
//! mid-price and margin requirement from the top of book, with a session
//! state machine that drives the receive loop.

pub mod book;
pub mod json;
pub mod metrics;
pub mod price;
pub mod session;
