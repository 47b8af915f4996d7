//! Crawl logic for a paginated car-dealer listing site.
//!
//! The library decides which page to request next, reads vehicle identifiers,
//! detail records and detail pages out of the bodies that come back, and lays
//! each vehicle out as one row of ten text fields. It performs no I/O itself:
//! a driver fetches what [`crawl::Command`] asks for and hands the bodies back
//! as [`crawl::Event`] values.

pub mod crawl;
pub mod detail;
pub mod error;
pub mod html;
pub mod listing;
pub mod page;
pub mod record;
pub mod region;
pub mod sink;
pub mod text;
pub mod trace;
