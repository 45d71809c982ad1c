//! A checked façade over a remote object store and a spot-instance API.
//!
//! Each operation reads the store's listings, checks its pre-conditions by a
//! scan of them, and decides either the remote requests to make or the
//! error to report. Carrying out the requests is left to the caller.
pub mod listing;
pub mod outcome;
pub mod model;
pub mod paths;
pub mod facade;
pub mod spot;
pub mod laws;
