pub mod token;
pub mod numbers;
pub mod ast;
pub mod printer;
pub mod value;
pub mod error;
pub mod environment;
pub mod semantics;
pub mod interpreter;
pub mod laws;
pub mod parser;
pub mod scanner;
