pub mod ast;
pub mod converter;
pub mod directive;
pub mod ir;
pub mod outline;
