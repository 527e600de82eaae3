//! Balance segment for a status line: normalisation of the raw account
//! counters, the cache freshness policy, configuration resolution, and the
//! decision procedure that ties them together.
//!
//! All amounts are held as exact integers and fractions. The display string
//! is that of the amount as a double, rounded to two decimal places.

pub mod api;
pub mod engine;
pub mod segments;
