//! Analytics over user-scheduled "time block" records.
//!
//! The library takes an ordered sequence of time blocks (work intervals with
//! a duration, a status, a title and optional metadata) and derives a report:
//! per-block heuristic scores and labels, aggregate performance metrics, and
//! an ordered list of optimization suggestions.
//!
//! Fractional quantities are represented exactly: fixed-point integers for
//! per-block scores (tenths or thirds of a point) and exact [`model::Ratio`]
//! values for aggregate means and percentages. Rendering those as decimal
//! numbers is left to the caller.

pub mod laws;
pub mod metrics;
pub mod model;
pub mod pipeline;
pub mod scorer;
pub mod suggest;
pub mod text;
