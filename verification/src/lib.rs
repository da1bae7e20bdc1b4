//! Bookkeeping core for a small multi-unit rental property business.
//!
//! The crate models leases with tiered commercial fee structures (gross,
//! single/double/triple net), categorizes property expenses, and computes
//! the billing statement a leaseholder owes for a period.
//!
//! Money is held in integer cents and proration rates in basis points
//! (1/10000), so every total is exact; a statement total is kept in a fine
//! unit of one ten-thousandth of a cent (cents times basis points) and is
//! only rounded when rendered for display.

pub mod app_settings;
pub mod companies;
pub mod dates;
pub mod expenses;
pub mod lease;
pub mod leaseholders;
pub mod properties;
pub mod statements;
pub mod text;
