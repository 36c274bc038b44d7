//! Typed registry of USB HID usage codes, one closed enumeration per usage
//! page, with total conversions between wire codes and symbolic usages.
//!
//! - [`page`] holds the usage pages: each usage with its wire code, the
//!   conversions both ways, and the order, equality and hash that go by the
//!   code alone.
//! - [`digest`] holds the byte encoding of codes and the digest over it.
//! - [`report`] combines input line states into the one-byte fixed-function
//!   consumer control report.

pub mod digest;
pub mod page;
pub mod report;
