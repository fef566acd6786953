//! Verified core logic of the Sentience Discord ingestion and LLM enrichment services.

pub mod text;
pub mod topics;
pub mod time;
pub mod ids;
pub mod hash;
pub mod model;
pub mod facts;
pub mod llm;
pub mod batch;
pub mod messages;
pub mod ingest;
pub mod media;
pub mod users;
pub mod emoji;
pub mod channels;
pub mod reactions;
pub mod edits;
pub mod scan;
pub mod extraction;
pub mod sorting;
pub mod discord;
