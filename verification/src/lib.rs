//! Hierarchical memory and adaptive retrieval core of a personal
//! health-record assistant: the node hierarchy, query classification,
//! local/cloud model routing and the period-summary pipeline.

pub mod text;
pub mod error;
pub mod models;
pub mod llm;
pub mod database;
pub mod clock;
pub mod retrieval;
pub mod vector_store;
pub mod search;
pub mod health;

pub use error::OrionError;
