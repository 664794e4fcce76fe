//! Runtime "paranoid" type checker for a stack-based bytecode virtual machine.
//!
//! The checker mirrors the interpreter's operand stack with a shadow stack of
//! symbolic types and re-validates the type effect of every executed
//! instruction, the typing of every call boundary, and the substructural
//! "ability" discipline (Copy, Drop, Store, Key) of the language. It is a
//! second, dynamic line of defense behind the offline bytecode verifier: a
//! defect in the verifier, the loader, or the interpreter must surface as a
//! checker error instead of silently corrupting type safety.

pub mod bytecode;
pub mod checker;
pub mod errors;
pub mod function;
pub mod laws;
pub mod oracle;
pub mod stack;
pub mod transition;
pub mod types;
