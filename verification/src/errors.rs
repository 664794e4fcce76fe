use vstd::prelude::*;

verus! {

/// Failure classes of the runtime type checker.
///
/// Every variant is fatal to the current call: the interpreter aborts the
/// whole transaction when a check fails, with no local recovery. These are
/// invariant-violation errors, distinct from the executed program's own abort
/// codes; none of them is expected for bytecode that passed the offline
/// verifier.
#[derive(Clone, Copy, Debug, PartialEq, Eq, Structural)]
pub enum TypeCheckError {
    /// The shadow stack's depth disagrees with the depth expected from the
    /// instruction's arity or from the real operand stack.
    StackImbalance,
    /// A structural or reference-compatibility equality check failed.
    TypeMismatch,
    /// A required Copy/Drop/Key (or field-ability-subset) predicate failed.
    AbilityViolation,
    /// A declared field or parameter count disagrees with the instruction's
    /// operand count.
    ArgCountMismatch,
    /// A friend-or-private callee was invoked from a different module
    /// address, or a module identity could not be determined.
    VisibilityViolation,
    /// A control-transfer opcode reached the post-execution table; this
    /// signals an interpreter-loop defect, not a program defect.
    MalformedControlFlow,
}

} // verus!
