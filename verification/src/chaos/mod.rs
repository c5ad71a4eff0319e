//! Killing pods of a workload and measuring how long it takes to recover.
pub mod agreement;
pub mod guest;
pub mod host;
pub mod objects;
pub mod pods;
pub mod rogue;
pub mod run;
pub mod safety;
pub mod summary;
pub mod victims;
