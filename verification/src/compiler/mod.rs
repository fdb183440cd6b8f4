//! Code generators: a program written out as source text of another language.

pub mod ruby;

pub use ruby::RubyCompiler;
