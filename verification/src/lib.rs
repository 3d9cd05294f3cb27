//! Agentic retrieval orchestrator for a hybrid statute-search engine.
//!
//! The library verifies the logic of a legal question-answering pipeline:
//! a task planner that decomposes a user question into retrieval sub-tasks,
//! a hybrid retriever that joins vector-search hits with relational metadata
//! and applies region filtering, and an agent loop that executes tasks,
//! accumulates deduplicated results, and bounds its own iteration count.

pub mod agent;
pub mod endpoints;
pub mod fragment;
pub mod llm;
pub mod lookup;
pub mod planner;
pub mod records;
pub mod retrieve;
pub mod evaluator;
pub mod sse;
pub mod settings;
pub mod text;
