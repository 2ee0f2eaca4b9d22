//! Pricing, risk, and order-fulfillment-routing core of a virtual-AMM
//! perpetual-futures exchange.
//!
//! The library computes a synthetic mark price from a constant-product
//! reserve curve with an asymmetric bid/ask spread, validates an external
//! price oracle against that mark price, computes size-dependent margin
//! requirements and asset-weight discounts, and decides, per incoming taker
//! order, the ordered sequence of counterparties that should fill it.
//!
//! All arithmetic is checked fixed-point integer arithmetic: overflow,
//! underflow and division by zero surface as errors, never wrap silently.

pub mod constants;
pub mod error;
pub mod feeds;
pub mod fulfillment;
pub mod ids;
pub mod margin;
pub mod market;
pub mod math;
pub mod oracle;
pub mod perp_margin;
pub mod perp_market;
pub mod position;
