pub mod interpreter;
pub mod runtime;
