pub mod model;
pub mod service;
pub mod state;
pub mod state_in_memory;
pub mod workflow;
pub mod test_utils;
pub mod standalone;
