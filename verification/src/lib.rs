//! The logic of the sofka plugins: what they ask their tools for, what they make
//! of the answers, and what they refuse.
pub mod budget;
pub mod chaos;
pub mod deprecated_apis;
pub mod duration;
pub mod encoding;
pub mod frame;
pub mod json;
pub mod laws;
pub mod numbers;
pub mod oha;
pub mod pipes;
pub mod popeye;
pub mod report;
pub mod resource_summary;
pub mod scan_request;
pub mod sequences;
pub mod text;
pub mod text_map;
pub mod tools;
pub mod trivy;
pub mod velero;
