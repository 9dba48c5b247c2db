//! A single-binary workflow engine: invocations and call states kept in an
//! in-memory store, calls made through `AsyncService`s.
pub mod batch;
pub mod in_memory_state;
pub mod logger;
pub mod model;
pub mod service;
pub mod sqs_service;
pub mod state;
pub mod workflow_engine;
pub mod workflow_example;
