//! Tasks: the stored record, the admission rules of the scheduler and the
//! content shaping of the pipeline.
pub mod executor;
pub mod model;
pub mod scheduler;
pub mod flows;
pub mod pipeline;
