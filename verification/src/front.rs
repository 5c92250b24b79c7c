pub mod ast;
pub mod parser;
pub mod printer;
pub mod scanner;
pub mod source_file;
pub mod token;
