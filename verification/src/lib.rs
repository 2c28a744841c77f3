//! Deterministic classification of markdown governance documents
//! (architecture decision records and their relatives).
pub mod patterns;
pub mod text;
pub mod status;
pub mod front_matter;
pub mod positions;
pub mod table;
pub mod gates;
pub mod governance_doc;
pub mod node;
pub mod laws;
