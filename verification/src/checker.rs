use vstd::prelude::*;

use crate::bytecode::Bytecode;
use crate::errors::TypeCheckError;
use crate::function::{Function, InstrRet, Locals};
use crate::oracle::Resolver;
use crate::stack::TypeStack;
use crate::transition::{post_instr_wf, pre_instr_wf, spec_post_transition, spec_pre_transition};
use crate::types::{spec_subst, subst_types, Type};

verus! {

/// The runtime type checker. All checks are associated functions invoked by
/// the interpreter loop at its hook points: once per call boundary and twice
/// (pre- and post-execution) per executed instruction.
pub struct ParanoidTypeChecker {}

/// The visibility rule of a call: a friend-or-private callee may only be
/// invoked by a caller in the exact same module address; an undeterminable
/// module identity on either side fails the rule.
pub open spec fn spec_visibility_ok(caller: Function, callee: Function) -> bool {
    callee.is_friend_or_private ==> match (caller.module, callee.module) {
        (Some(caller_id), Some(callee_id)) => caller_id.address == callee_id.address,
        _ => false,
    }
}

/// The argument checks of a call boundary, from argument position `i` on:
/// the stack is LIFO, so the `i`-th value popped off `s` must equal the
/// `(expected.len() - 1 - i)`-th declared type, substituted with the call's
/// type arguments. An empty stack fails with `StackImbalance`, a wrong type
/// with `TypeMismatch`.
pub open spec fn spec_check_args_from(
    s: Seq<Type>,
    expected: Seq<Type>,
    ty_args: Seq<Type>,
    i: int,
) -> Result<(), TypeCheckError>
    decreases expected.len() - i,
{
    if i < 0 || i >= expected.len() {
        Ok(())
    } else if s.len() == 0 {
        Err(TypeCheckError::StackImbalance)
    } else if s.last() != spec_subst(expected[expected.len() - 1 - i], ty_args) {
        Err(TypeCheckError::TypeMismatch)
    } else {
        spec_check_args_from(s.drop_last(), expected, ty_args, i + 1)
    }
}

/// The effect of the call-site check on the caller's shadow stack: after the
/// visibility rule, a native callee has its parameters validated and popped
/// and its substituted return types pushed, while a bytecode callee has the
/// values for its first `arg_count` local slots validated and popped (the
/// callee's own frame starts with a fresh, empty shadow stack).
pub open spec fn spec_pre_hook_fn(
    s: Seq<Type>,
    caller: Function,
    callee: Function,
    ty_args: Seq<Type>,
) -> Result<Seq<Type>, TypeCheckError> {
    if !spec_visibility_ok(caller, callee) {
        Err(TypeCheckError::VisibilityViolation)
    } else if callee.is_native {
        match spec_check_args_from(s, callee.parameters@, ty_args, 0) {
            Ok(()) => Ok(
                s.take(s.len() - callee.parameters@.len()) + callee.return_types@.map_values(
                    |t: Type| spec_subst(t, ty_args),
                ),
            ),
            Err(e) => Err(e),
        }
    } else {
        match spec_check_args_from(
            s,
            callee.locals@.take(callee.parameters@.len() as int),
            ty_args,
            0,
        ) {
            Ok(()) => Ok(s.take(s.len() - callee.parameters@.len())),
            Err(e) => Err(e),
        }
    }
}

/// Checking freshly pushed, substituted argument types against the same
/// declared types always succeeds: the `i`-th pop from the top meets the
/// `(n - 1 - i)`-th declared parameter it was pushed from.
proof fn lemma_check_pushed_args(s: Seq<Type>, expected: Seq<Type>, ty_args: Seq<Type>, i: int)
    requires
        0 <= i <= expected.len(),
    ensures
        spec_check_args_from(
            s + expected.map_values(|t: Type| spec_subst(t, ty_args)).take(expected.len() - i),
            expected,
            ty_args,
            i,
        ) is Ok,
    decreases expected.len() - i,
{
    let m = expected.map_values(|t: Type| spec_subst(t, ty_args));
    let cur = s + m.take(expected.len() - i);
    if i < expected.len() {
        assert(cur.last() == m[expected.len() - 1 - i]);
        lemma_check_pushed_args(s, expected, ty_args, i + 1);
        assert(cur.drop_last() =~= s + m.take(expected.len() - (i + 1)));
    }
}

impl ParanoidTypeChecker {
    /// Enforces the visibility rule of a call; see [`spec_visibility_ok`].
    pub fn check_friend_or_private_call(caller: &Function, callee: &Function) -> (res: Result<
        (),
        TypeCheckError,
    >)
        ensures
            res is Ok <==> spec_visibility_ok(*caller, *callee),
            res is Err ==> res == Err::<(), TypeCheckError>(TypeCheckError::VisibilityViolation),
    {
        if callee.is_friend_or_private {
            match (&caller.module, &callee.module) {
                (Some(caller_id), Some(callee_id)) => {
                    if caller_id.address == callee_id.address {
                        Ok(())
                    } else {
                        Err(TypeCheckError::VisibilityViolation)
                    }
                },
                _ => Err(TypeCheckError::VisibilityViolation),
            }
        } else {
            Ok(())
        }
    }

    /// Pops and validates the callee's arguments against its declared
    /// parameter types, substituted with the call's type arguments, in LIFO
    /// order; see [`spec_check_args_from`].
    #[verifier::loop_isolation(false)]
    pub fn check_parameter_types(
        operand_stack: &mut TypeStack,
        function: &Function,
        ty_args: &Vec<Type>,
    ) -> (res: Result<(), TypeCheckError>)
        ensures
            res == spec_check_args_from(old(operand_stack)@, function.parameters@, ty_args@, 0),
            res is Ok ==> old(operand_stack)@.len() >= function.parameters@.len() && final(operand_stack)@ == old(operand_stack)@.take(
                old(operand_stack)@.len() - function.parameters@.len(),
            ),
            res is Err ==> final(operand_stack)@.len() <= old(operand_stack)@.len(),
    {
        let ghost s0 = operand_stack@;
        let arg_count = function.arg_count();
        let mut i: usize = 0;
        while i < arg_count
            invariant
                i <= arg_count,
                s0.len() >= i,
                operand_stack@ == s0.take(s0.len() - i),
                spec_check_args_from(s0, function.parameters@, ty_args@, 0)
                    == spec_check_args_from(
                    operand_stack@,
                    function.parameters@,
                    ty_args@,
                    i as int,
                ),
            decreases arg_count - i,
        {
            let expected_ty = function.parameters[arg_count - 1 - i].subst(ty_args);
            let ty = operand_stack.pop()?;
            ty.check_eq(&expected_ty)?;
            proof {
                assert(operand_stack@ =~= s0.take(s0.len() - (i + 1)));
            }
            i = i + 1;
        }
        Ok(())
    }

    /// Pops and validates the values for the callee's first `arg_count`
    /// local slots against their declared types, substituted with the call's
    /// type arguments, in LIFO order; see [`spec_check_args_from`].
    #[verifier::loop_isolation(false)]
    pub fn check_local_types(
        operand_stack: &mut TypeStack,
        function: &Function,
        ty_args: &Vec<Type>,
    ) -> (res: Result<(), TypeCheckError>)
        requires
            function.wf(),
        ensures
            res == spec_check_args_from(
                old(operand_stack)@,
                function.locals@.take(function.parameters@.len() as int),
                ty_args@,
                0,
            ),
            res is Ok ==> old(operand_stack)@.len() >= function.parameters@.len() && final(operand_stack)@ == old(operand_stack)@.take(
                old(operand_stack)@.len() - function.parameters@.len(),
            ),
            res is Err ==> final(operand_stack)@.len() <= old(operand_stack)@.len(),
    {
        let ghost s0 = operand_stack@;
        let ghost expected = function.locals@.take(function.parameters@.len() as int);
        let arg_count = function.arg_count();
        let mut i: usize = 0;
        while i < arg_count
            invariant
                i <= arg_count,
                s0.len() >= i,
                operand_stack@ == s0.take(s0.len() - i),
                spec_check_args_from(s0, expected, ty_args@, 0) == spec_check_args_from(
                    operand_stack@,
                    expected,
                    ty_args@,
                    i as int,
                ),
            decreases arg_count - i,
        {
            let expected_ty = function.locals[arg_count - 1 - i].subst(ty_args);
            let ty = operand_stack.pop()?;
            ty.check_eq(&expected_ty)?;
            proof {
                assert(operand_stack@ =~= s0.take(s0.len() - (i + 1)));
            }
            i = i + 1;
        }
        Ok(())
    }

    /// The substituted local-slot types of the callee's frame, in slot
    /// order; the interpreter consumes them when it builds the frame.
    pub fn get_local_types(function: &Function, ty_args: &Vec<Type>) -> (r: Vec<Type>)
        ensures
            r@ == function.locals@.map_values(|t: Type| spec_subst(t, ty_args@)),
    {
        subst_types(&function.locals, ty_args)
    }

    /// Pushes the callee's substituted parameter types, in declaration
    /// order.
    #[verifier::loop_isolation(false)]
    pub fn push_parameter_types(
        operand_stack: &mut TypeStack,
        function: &Function,
        ty_args: &Vec<Type>,
    )
        ensures
            final(operand_stack)@ == old(operand_stack)@ + function.parameters@.map_values(
                |t: Type| spec_subst(t, ty_args@),
            ),
    {
        let ghost m = function.parameters@.map_values(|t: Type| spec_subst(t, ty_args@));
        let mut i: usize = 0;
        while i < function.parameters.len()
            invariant
                i <= function.parameters@.len(),
                operand_stack@ == old(operand_stack)@ + m.take(i as int),
            decreases function.parameters@.len() - i,
        {
            operand_stack.push(function.parameters[i].subst(ty_args));
            proof {
                assert(operand_stack@ =~= old(operand_stack)@ + m.take(i + 1));
            }
            i = i + 1;
        }
        proof {
            assert(old(operand_stack)@ + m.take(m.len() as int) =~= old(operand_stack)@ + m);
        }
    }

    /// Pushes the callee's substituted return types, in declaration order.
    #[verifier::loop_isolation(false)]
    pub fn push_return_types(
        operand_stack: &mut TypeStack,
        function: &Function,
        ty_args: &Vec<Type>,
    )
        ensures
            final(operand_stack)@ == old(operand_stack)@ + function.return_types@.map_values(
                |t: Type| spec_subst(t, ty_args@),
            ),
    {
        let ghost m = function.return_types@.map_values(|t: Type| spec_subst(t, ty_args@));
        let mut i: usize = 0;
        while i < function.return_types.len()
            invariant
                i <= function.return_types@.len(),
                operand_stack@ == old(operand_stack)@ + m.take(i as int),
            decreases function.return_types@.len() - i,
        {
            operand_stack.push(function.return_types[i].subst(ty_args));
            proof {
                assert(operand_stack@ =~= old(operand_stack)@ + m.take(i + 1));
            }
            i = i + 1;
        }
        proof {
            assert(old(operand_stack)@ + m.take(m.len() as int) =~= old(operand_stack)@ + m);
        }
    }

    /// Entrypoint check, for the top-level invocation of a function. Only a
    /// native entrypoint is checked here (the offline verifier already
    /// covers a bytecode entrypoint's body, while a native bypasses
    /// bytecode-level verification): its substituted parameter types are
    /// pushed, immediately popped and validated against the declared
    /// parameters in LIFO order — which always succeeds — and its
    /// substituted return types are pushed.
    pub fn pre_hook_entrypoint(
        operand_stack: &mut TypeStack,
        function: &Function,
        ty_args: &Vec<Type>,
    ) -> (res: Result<(), TypeCheckError>)
        ensures
            res is Ok,
            function.is_native ==> final(operand_stack)@ == old(operand_stack)@
                + function.return_types@.map_values(|t: Type| spec_subst(t, ty_args@)),
            !function.is_native ==> final(operand_stack)@ == old(operand_stack)@,
    {
        if function.is_native {
            Self::push_parameter_types(operand_stack, function, ty_args);
            proof {
                let m = function.parameters@.map_values(|t: Type| spec_subst(t, ty_args@));
                lemma_check_pushed_args(
                    old(operand_stack)@,
                    function.parameters@,
                    ty_args@,
                    0,
                );
                assert(m.take(m.len() as int) =~= m);
            }
            Self::check_parameter_types(operand_stack, function, ty_args)?;
            proof {
                let m = function.parameters@.map_values(|t: Type| spec_subst(t, ty_args@));
                assert((old(operand_stack)@ + m).take(old(operand_stack)@.len() as int) =~= old(operand_stack)@);
            }
            Self::push_return_types(operand_stack, function, ty_args);
        }
        Ok(())
    }

    /// Call-site check, before control transfers into the callee's frame;
    /// see [`spec_pre_hook_fn`].
    pub fn pre_hook_fn(
        operand_stack: &mut TypeStack,
        function: &Function,
        ty_args: &Vec<Type>,
        current_frame_function: &Function,
    ) -> (res: Result<(), TypeCheckError>)
        requires
            function.wf(),
        ensures
            ({
                let t = spec_pre_hook_fn(
                    old(operand_stack)@,
                    *current_frame_function,
                    *function,
                    ty_args@,
                );
                &&& (res is Ok <==> t is Ok)
                &&& (res is Ok ==> t == Ok::<Seq<Type>, TypeCheckError>(final(operand_stack)@))
                &&& (res matches Err(e) ==> t == Err::<Seq<Type>, TypeCheckError>(e))
                &&& (res is Err ==> final(operand_stack)@.len() <= old(operand_stack)@.len())
            }),
    {
        Self::check_friend_or_private_call(current_frame_function, function)?;
        if function.is_native {
            Self::check_parameter_types(operand_stack, function, ty_args)?;
            Self::push_return_types(operand_stack, function, ty_args);
            Ok(())
        } else {
            Self::check_local_types(operand_stack, function, ty_args)?;
            Ok(())
        }
    }

    /// Post-call extension seam: parameters are accepted and nothing is
    /// performed. Reserved for future post-call validation; deliberately a
    /// no-op.
    pub fn post_hook_fn(_function: &Function) {
    }

    /// The combined pre-execution check of one instruction: the shadow
    /// stack's depth is cross-checked against the real operand stack's
    /// depth, then the pre-execution transition runs; see
    /// [`spec_pre_transition`].
    pub fn pre_instr(
        operand_stack: &mut TypeStack,
        local_tys: &Vec<Type>,
        locals: &Locals,
        ty_args: &Vec<Type>,
        resolver: &Resolver,
        instruction: &Bytecode,
        value_stack_depth: usize,
    ) -> (res: Result<(), TypeCheckError>)
        requires
            pre_instr_wf(*instruction, local_tys@),
            locals@.len() == local_tys@.len(),
        ensures
            old(operand_stack)@.len() != value_stack_depth ==> res == Err::<(), TypeCheckError>(
                TypeCheckError::StackImbalance,
            ) && final(operand_stack)@ == old(operand_stack)@,
            old(operand_stack)@.len() == value_stack_depth ==> ({
                let t = spec_pre_transition(
                    old(operand_stack)@,
                    local_tys@,
                    locals@,
                    *resolver,
                    *instruction,
                );
                &&& (res is Ok <==> t is Ok)
                &&& (res is Ok ==> t == Ok::<Seq<Type>, TypeCheckError>(final(operand_stack)@))
                &&& (res matches Err(e) ==> t == Err::<Seq<Type>, TypeCheckError>(e))
                &&& (res is Err ==> final(operand_stack)@.len() <= old(operand_stack)@.len())
            }),
    {
        operand_stack.check_balance(value_stack_depth)?;
        Self::pre_execution_type_stack_transition(
            operand_stack,
            local_tys,
            locals,
            ty_args,
            resolver,
            instruction,
        )?;
        Ok(())
    }

    /// The combined post-execution check of one instruction, performed only
    /// when the instruction completed locally (`InstrRet::Completed`): the
    /// post-execution transition runs, then the shadow stack's depth is
    /// cross-checked against the real operand stack's depth; see
    /// [`spec_post_transition`].
    pub fn post_instr(
        operand_stack: &mut TypeStack,
        local_tys: &Vec<Type>,
        ty_args: &Vec<Type>,
        resolver: &Resolver,
        instruction: &Bytecode,
        ret: &InstrRet,
        value_stack_depth: usize,
    ) -> (res: Result<(), TypeCheckError>)
        requires
            resolver.wf(),
            post_instr_wf(*instruction, *resolver, local_tys@),
        ensures
            !(*ret matches InstrRet::Completed) ==> res is Ok && final(operand_stack)@ == old(operand_stack)@,
            *ret matches InstrRet::Completed ==> ({
                let t = spec_post_transition(
                    old(operand_stack)@,
                    local_tys@,
                    ty_args@,
                    *resolver,
                    *instruction,
                );
                match t {
                    Ok(s2) => {
                        &&& final(operand_stack)@ == s2
                        &&& (res is Ok <==> s2.len() == value_stack_depth)
                        &&& (res is Err ==> res == Err::<(), TypeCheckError>(
                            TypeCheckError::StackImbalance,
                        ))
                    },
                    Err(e) => res == Err::<(), TypeCheckError>(e) && final(operand_stack)@.len()
                        <= old(operand_stack)@.len(),
                }
            }),
    {
        match ret {
            InstrRet::Completed => {
                Self::post_execution_type_stack_transition(
                    operand_stack,
                    local_tys,
                    ty_args,
                    resolver,
                    instruction,
                )?;
                operand_stack.check_balance(value_stack_depth)?;
                Ok(())
            },
            _ => Ok(()),
        }
    }

    /// Per-instruction hook invoked by the interpreter before the real
    /// instruction executes; forwards to [`ParanoidTypeChecker::pre_instr`].
    pub fn pre_hook_instr(
        operand_stack: &mut TypeStack,
        local_tys: &Vec<Type>,
        locals: &Locals,
        ty_args: &Vec<Type>,
        resolver: &Resolver,
        instruction: &Bytecode,
        value_stack_depth: usize,
    ) -> (res: Result<(), TypeCheckError>)
        requires
            pre_instr_wf(*instruction, local_tys@),
            locals@.len() == local_tys@.len(),
        ensures
            old(operand_stack)@.len() != value_stack_depth ==> res == Err::<(), TypeCheckError>(
                TypeCheckError::StackImbalance,
            ) && final(operand_stack)@ == old(operand_stack)@,
            old(operand_stack)@.len() == value_stack_depth ==> ({
                let t = spec_pre_transition(
                    old(operand_stack)@,
                    local_tys@,
                    locals@,
                    *resolver,
                    *instruction,
                );
                &&& (res is Ok <==> t is Ok)
                &&& (res is Ok ==> t == Ok::<Seq<Type>, TypeCheckError>(final(operand_stack)@))
                &&& (res matches Err(e) ==> t == Err::<Seq<Type>, TypeCheckError>(e))
                &&& (res is Err ==> final(operand_stack)@.len() <= old(operand_stack)@.len())
            }),
    {
        Self::pre_instr(
            operand_stack,
            local_tys,
            locals,
            ty_args,
            resolver,
            instruction,
            value_stack_depth,
        )
    }

    /// Per-instruction hook invoked by the interpreter after the real
    /// instruction executed, with the interpreter's report of how it
    /// finished; forwards to [`ParanoidTypeChecker::post_instr`].
    pub fn post_hook_instr(
        operand_stack: &mut TypeStack,
        local_tys: &Vec<Type>,
        ty_args: &Vec<Type>,
        resolver: &Resolver,
        instruction: &Bytecode,
        ret: &InstrRet,
        value_stack_depth: usize,
    ) -> (res: Result<(), TypeCheckError>)
        requires
            resolver.wf(),
            post_instr_wf(*instruction, *resolver, local_tys@),
        ensures
            !(*ret matches InstrRet::Completed) ==> res is Ok && final(operand_stack)@ == old(operand_stack)@,
            *ret matches InstrRet::Completed ==> ({
                let t = spec_post_transition(
                    old(operand_stack)@,
                    local_tys@,
                    ty_args@,
                    *resolver,
                    *instruction,
                );
                match t {
                    Ok(s2) => {
                        &&& final(operand_stack)@ == s2
                        &&& (res is Ok <==> s2.len() == value_stack_depth)
                        &&& (res is Err ==> res == Err::<(), TypeCheckError>(
                            TypeCheckError::StackImbalance,
                        ))
                    },
                    Err(e) => res == Err::<(), TypeCheckError>(e) && final(operand_stack)@.len()
                        <= old(operand_stack)@.len(),
                }
            }),
    {
        Self::post_instr(
            operand_stack,
            local_tys,
            ty_args,
            resolver,
            instruction,
            ret,
            value_stack_depth,
        )
    }
}

} // verus!
