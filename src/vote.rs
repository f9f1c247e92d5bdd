pub mod anarchy;
pub mod engine;
