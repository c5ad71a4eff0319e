//! What the reports, choices and commands of the plugins mean, in terms of what
//! went into them.
pub mod chaos;
pub mod cluster;
pub mod deprecated_apis;
pub mod host;
pub mod oha;
pub mod plumbing;
pub mod popeye;
pub mod reading;
pub mod runs;
pub mod text;
pub mod trivy;
pub mod velero;
