use vstd::prelude::*;

use crate::errors::TypeCheckError;
use crate::types::Type;

verus! {

/// The shadow stack of symbolic types, mirroring the interpreter's real
/// operand stack one-to-one in length and position. One instance lives per
/// active call frame; it is created empty at frame entry and discarded when
/// the frame returns or aborts. Its view is the sequence of types from bottom
/// to top.
pub struct TypeStack {
    types: Vec<Type>,
}

impl View for TypeStack {
    type V = Seq<Type>;

    closed spec fn view(&self) -> Seq<Type> {
        self.types@
    }
}

impl TypeStack {
    /// A fresh, empty shadow stack for a new call frame.
    pub fn new() -> (r: TypeStack)
        ensures
            r@ == Seq::<Type>::empty(),
    {
        let types: Vec<Type> = Vec::new();
        proof {
            assert(types@ =~= Seq::<Type>::empty());
        }
        TypeStack { types }
    }

    /// The tracked depth of the shadow stack.
    pub fn len(&self) -> (r: usize)
        ensures
            r == self@.len(),
    {
        self.types.len()
    }

    /// Appends one type; always succeeds.
    pub fn push(&mut self, ty: Type)
        ensures
            final(self)@ == old(self)@.push(ty),
    {
        self.types.push(ty);
    }

    /// Removes and returns the topmost type; fails with `StackImbalance` on
    /// an empty stack, which is then left unchanged.
    pub fn pop(&mut self) -> (r: Result<Type, TypeCheckError>)
        ensures
            old(self)@.len() > 0 ==> r == Ok::<Type, TypeCheckError>(old(self)@.last())
                && final(self)@ == old(self)@.drop_last(),
            old(self)@.len() == 0 ==> r == Err::<Type, TypeCheckError>(
                TypeCheckError::StackImbalance,
            ) && final(self)@ == old(self)@,
    {
        match self.types.pop() {
            Some(ty) => Ok(ty),
            None => Err(TypeCheckError::StackImbalance),
        }
    }

    /// Removes the topmost `n` types and returns them in the order popped,
    /// topmost first; fails with `StackImbalance` when fewer than `n` types
    /// are tracked.
    pub fn pop_n(&mut self, n: usize) -> (r: Result<Vec<Type>, TypeCheckError>)
        ensures
            old(self)@.len() >= n ==> {
                &&& r is Ok
                &&& final(self)@ == old(self)@.take(old(self)@.len() - n)
                &&& r matches Ok(popped) && popped@ == old(self)@.subrange(
                    old(self)@.len() - n,
                    old(self)@.len() as int,
                ).reverse()
            },
            old(self)@.len() < n ==> r == Err::<Vec<Type>, TypeCheckError>(
                TypeCheckError::StackImbalance,
            ) && final(self)@ == old(self)@,
    {
        if self.types.len() < n {
            return Err(TypeCheckError::StackImbalance);
        }
        let ghost s0 = self.types@;
        let mut popped: Vec<Type> = Vec::new();
        let mut i: usize = 0;
        while i < n
            invariant
                i <= n,
                n <= s0.len(),
                self.types@ == s0.take(s0.len() - i),
                popped@.len() == i,
                forall|k: int| 0 <= k < i ==> popped@[k] == s0[s0.len() - 1 - k],
            decreases n - i,
        {
            match self.types.pop() {
                Some(ty) => {
                    proof {
                        assert(self.types@ =~= s0.take(s0.len() - (i + 1)));
                    }
                    popped.push(ty);
                },
                None => {
                    // Unreachable: the length was checked above.
                    proof {
                        assert(false);
                    }
                },
            }
            i = i + 1;
        }
        proof {
            assert(popped@ =~= s0.subrange(s0.len() - n, s0.len() as int).reverse());
        }
        Ok(popped)
    }

    /// Cross-checks the tracked depth against the real operand stack's depth,
    /// reported by the interpreter; fails with `StackImbalance` when the two
    /// disagree.
    pub fn check_balance(&self, value_stack_depth: usize) -> (r: Result<(), TypeCheckError>)
        ensures
            r is Ok <==> self@.len() == value_stack_depth,
            r is Err ==> r == Err::<(), TypeCheckError>(TypeCheckError::StackImbalance),
    {
        if self.types.len() == value_stack_depth {
            Ok(())
        } else {
            Err(TypeCheckError::StackImbalance)
        }
    }
}

} // verus!
