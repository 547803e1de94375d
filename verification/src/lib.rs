//! Import resolution for a document scripting language: turning an `import`
//! or `include` statement into bindings in the current scope, loading and
//! evaluating other files and packages on the way.

pub mod assoc;
pub mod ast;
pub mod cache;
pub mod desc;
pub mod diag;
pub mod engine;
pub mod eval;
pub mod file;
pub mod ident;
pub mod laws;
pub mod package;
pub mod route;
pub mod scope;
pub mod span;
pub mod text;
pub mod value;
