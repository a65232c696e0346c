pub mod cli;
pub mod engine;
pub mod instance;
pub mod laws;
pub mod model;
pub mod requests;
pub mod strutil;
pub mod wire;
