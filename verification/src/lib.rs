//! A source-to-source translator core: walks a scripting-language syntax
//! tree and emits equivalent statically-typed target code as text, with a
//! type mapper, a standard-library call translator, and an import resolver.
//! Every emitted fragment is pinned to a specification function of the input
//! tree alone, so a translation is deterministic by contract.
pub mod array;
pub mod ast;
pub mod func;
pub mod console;
pub mod diagnostics;
pub mod ident;
pub mod math;
pub mod module;
pub mod orchestrator;
pub mod text;
pub mod types;
