use vstd::prelude::*;

use crate::types::Type;

verus! {

/// The identity of a loaded module: its account address and a handle for its
/// name. The visibility rule compares addresses only.
#[derive(Clone, Copy, Debug, PartialEq, Eq, Structural)]
pub struct ModuleId {
    pub address: u128,
    pub name: u64,
}

/// An immutable function descriptor, owned by the loader and consumed
/// read-only by the checker: declared parameter, return and local-slot types
/// (each possibly containing `TyParam` placeholders of the function's own
/// type parameters), the native and visibility flags, and the owning module's
/// identity, where one is known. The first `arg_count()` local slots are the
/// parameter slots.
pub struct Function {
    pub parameters: Vec<Type>,
    pub return_types: Vec<Type>,
    pub locals: Vec<Type>,
    pub is_native: bool,
    pub is_friend_or_private: bool,
    pub module: Option<ModuleId>,
}

impl Function {
    /// The number of arguments the function is called with.
    pub fn arg_count(&self) -> (r: usize)
        ensures
            r == self.parameters@.len(),
    {
        self.parameters.len()
    }

    /// The parameter slots are a prefix of the local slots.
    pub open spec fn wf(self) -> bool {
        self.parameters@.len() <= self.locals@.len()
    }
}

/// The per-frame local-slot validity mask: `true` for a slot that currently
/// holds a live value, `false` for one whose value has been moved out. The
/// checker consults it to decide whether a drop-ability check is owed before
/// a slot's value is overwritten or implicitly discarded.
pub struct Locals {
    valid: Vec<bool>,
}

impl View for Locals {
    type V = Seq<bool>;

    closed spec fn view(&self) -> Seq<bool> {
        self.valid@
    }
}

impl Locals {
    /// A validity mask built from one flag per local slot, in slot order.
    pub fn new(valid: Vec<bool>) -> (r: Locals)
        ensures
            r@ == valid@,
    {
        Locals { valid }
    }

    /// Whether the slot at `idx` holds no live value.
    pub fn is_invalid(&self, idx: usize) -> (r: bool)
        requires
            idx < self@.len(),
        ensures
            r == !self@[idx as int],
    {
        !self.valid[idx]
    }
}

/// How the interpreter reports that an instruction finished: it completed
/// locally, or it transferred control (a branch, call, return or abort). The
/// post-execution check runs only after a local completion.
#[derive(Clone, Copy, Debug, PartialEq, Eq, Structural)]
pub enum InstrRet {
    /// The instruction completed and control falls through to the next one.
    Completed,
    /// The instruction exited the frame (a call, return or abort).
    ExitCode,
    /// The instruction branched within the frame.
    Branch,
}

} // verus!
