//! Checks data-science scripts for the textual signatures of a fixed catalogue
//! of good practices, and prepares what is recorded about each finding.

pub mod catalogue;
pub mod delimited;
pub mod dispatch;
pub mod error;
pub mod evaluator;
pub mod identity;
pub mod instant;
pub mod record;
pub mod scan;
pub mod sink;
pub mod text;
