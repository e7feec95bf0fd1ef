//! Decision logic of a paginated photo-listing scraper.
//!
//! A coordination service owns the page cursor. Each cycle reads the cursor,
//! fetches that page from the photo API, submits the raw body back to the
//! coordination service and asks it to advance the cursor. The library
//! decides what to request next and how long to wait between cycles; the
//! caller performs the requests and reports what came back.
pub mod config;
pub mod cycle;
pub mod pacing;
pub mod proxy;
pub mod request;
pub mod run_loop;
