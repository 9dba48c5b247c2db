pub mod context;
pub mod runtime;
pub mod batch_handler;
pub mod engine;
pub mod laws;
