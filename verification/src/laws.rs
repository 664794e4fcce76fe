use vstd::prelude::*;

use crate::bytecode::Bytecode;
use crate::errors::TypeCheckError;
use crate::oracle::{spec_abilities, Resolver};
use crate::transition::{
    spec_pack_check, spec_post_transition, spec_pre_transition,
};
use crate::types::{spec_field_expected_abilities, AbilitySet, Type};

verus! {

/// An opcode that transfers control out of the straight-line instruction
/// sequence; such an opcode never reaches the post-execution table.
pub open spec fn is_control_flow(i: Bytecode) -> bool {
    match i {
        Bytecode::Branch(_)
        | Bytecode::Ret
        | Bytecode::Call(_)
        | Bytecode::CallGeneric(_)
        | Bytecode::Abort => true,
        _ => false,
    }
}

/// How many operands the pre-execution phase of `i` consumes.
pub open spec fn pre_pops(i: Bytecode) -> nat {
    match i {
        Bytecode::BrTrue(_) | Bytecode::BrFalse(_) | Bytecode::Abort => 1,
        Bytecode::StLoc(_) => 1,
        _ => 0,
    }
}

/// How many operands the post-execution phase of `i` consumes.
pub open spec fn post_pops(i: Bytecode, r: Resolver) -> nat {
    match i {
        Bytecode::Pop => 1,
        Bytecode::ImmBorrowField(_) | Bytecode::MutBorrowField(_) => 1,
        Bytecode::ImmBorrowFieldGeneric(_) | Bytecode::MutBorrowFieldGeneric(_) => 1,
        Bytecode::Pack(idx) => r.structs@[idx as int].field_count as nat,
        Bytecode::PackGeneric(idx) => r.struct_instantiations@[idx as int].field_count as nat,
        Bytecode::Unpack(_) | Bytecode::UnpackGeneric(_) => 1,
        Bytecode::ReadRef => 1,
        Bytecode::WriteRef => 2,
        Bytecode::CastU8
        | Bytecode::CastU16
        | Bytecode::CastU32
        | Bytecode::CastU64
        | Bytecode::CastU128
        | Bytecode::CastU256 => 1,
        Bytecode::Add
        | Bytecode::Sub
        | Bytecode::Mul
        | Bytecode::Mod
        | Bytecode::Div
        | Bytecode::BitOr
        | Bytecode::BitAnd
        | Bytecode::Xor
        | Bytecode::Or
        | Bytecode::And
        | Bytecode::Shl
        | Bytecode::Shr
        | Bytecode::Lt
        | Bytecode::Gt
        | Bytecode::Le
        | Bytecode::Ge
        | Bytecode::Eq
        | Bytecode::Neq => 2,
        Bytecode::MutBorrowGlobal(_)
        | Bytecode::ImmBorrowGlobal(_)
        | Bytecode::MutBorrowGlobalGeneric(_)
        | Bytecode::ImmBorrowGlobalGeneric(_) => 1,
        Bytecode::Exists(_) | Bytecode::ExistsGeneric(_) => 1,
        Bytecode::MoveTo(_) | Bytecode::MoveToGeneric(_) => 2,
        Bytecode::MoveFrom(_) | Bytecode::MoveFromGeneric(_) => 1,
        Bytecode::FreezeRef => 1,
        Bytecode::Not => 1,
        Bytecode::VecPack(_, num) => num as nat,
        Bytecode::VecLen(_) => 1,
        Bytecode::VecImmBorrow(_) | Bytecode::VecMutBorrow(_) => 2,
        Bytecode::VecPushBack(_) => 2,
        Bytecode::VecPopBack(_) => 1,
        Bytecode::VecUnpack(_, _) => 1,
        Bytecode::VecSwap(_) => 3,
        _ => 0,
    }
}

/// How many operands the post-execution phase of `i` produces.
pub open spec fn post_pushes(i: Bytecode, r: Resolver) -> nat {
    match i {
        Bytecode::LdU8(_)
        | Bytecode::LdU16(_)
        | Bytecode::LdU32(_)
        | Bytecode::LdU64(_)
        | Bytecode::LdU128(_)
        | Bytecode::LdU256
        | Bytecode::LdTrue
        | Bytecode::LdFalse
        | Bytecode::LdConst(_) => 1,
        Bytecode::CopyLoc(_) | Bytecode::MoveLoc(_) => 1,
        Bytecode::MutBorrowLoc(_) | Bytecode::ImmBorrowLoc(_) => 1,
        Bytecode::ImmBorrowField(_) | Bytecode::MutBorrowField(_) => 1,
        Bytecode::ImmBorrowFieldGeneric(_) | Bytecode::MutBorrowFieldGeneric(_) => 1,
        Bytecode::Pack(_) | Bytecode::PackGeneric(_) => 1,
        Bytecode::Unpack(idx) => r.structs@[idx as int].fields@.len(),
        Bytecode::UnpackGeneric(idx) => r.structs@[r.struct_instantiations@[idx as int].def as int].fields@.len(),
        Bytecode::ReadRef => 1,
        Bytecode::CastU8
        | Bytecode::CastU16
        | Bytecode::CastU32
        | Bytecode::CastU64
        | Bytecode::CastU128
        | Bytecode::CastU256 => 1,
        Bytecode::Add
        | Bytecode::Sub
        | Bytecode::Mul
        | Bytecode::Mod
        | Bytecode::Div
        | Bytecode::BitOr
        | Bytecode::BitAnd
        | Bytecode::Xor
        | Bytecode::Or
        | Bytecode::And
        | Bytecode::Shl
        | Bytecode::Shr
        | Bytecode::Lt
        | Bytecode::Gt
        | Bytecode::Le
        | Bytecode::Ge
        | Bytecode::Eq
        | Bytecode::Neq => 1,
        Bytecode::MutBorrowGlobal(_)
        | Bytecode::ImmBorrowGlobal(_)
        | Bytecode::MutBorrowGlobalGeneric(_)
        | Bytecode::ImmBorrowGlobalGeneric(_) => 1,
        Bytecode::Exists(_) | Bytecode::ExistsGeneric(_) => 1,
        Bytecode::MoveFrom(_) | Bytecode::MoveFromGeneric(_) => 1,
        Bytecode::FreezeRef => 1,
        Bytecode::Not => 1,
        Bytecode::VecPack(_, _) => 1,
        Bytecode::VecLen(_) => 1,
        Bytecode::VecImmBorrow(_) | Bytecode::VecMutBorrow(_) => 1,
        Bytecode::VecPopBack(_) => 1,
        Bytecode::VecUnpack(_, num) => num as nat,
        _ => 0,
    }
}

/// Balance law, pre-execution phase: when the pre-execution check of a
/// non-control-flow instruction accepts, the shadow stack shrank by exactly
/// the instruction's declared pre-phase arity. Together with
/// [`lemma_post_transition_balance`] this pins the shadow stack's length to
/// the arity delta of every instruction the checker accepts, so a checker
/// that mirrors a correct interpreter never fails its depth cross-check.
pub proof fn lemma_pre_transition_balance(
    s: Seq<Type>,
    local_tys: Seq<Type>,
    locals_valid: Seq<bool>,
    r: Resolver,
    i: Bytecode,
    s2: Seq<Type>,
)
    requires
        spec_pre_transition(s, local_tys, locals_valid, r, i) == Ok::<Seq<Type>, TypeCheckError>(
            s2,
        ),
    ensures
        s.len() >= pre_pops(i),
        s2.len() == s.len() - pre_pops(i),
{
}

/// Balance law, post-execution phase: when the post-execution check of an
/// instruction accepts, the shadow stack's new length is exactly the old
/// one minus the instruction's declared consumption plus its declared
/// production.
pub proof fn lemma_post_transition_balance(
    s: Seq<Type>,
    local_tys: Seq<Type>,
    ty_args: Seq<Type>,
    r: Resolver,
    i: Bytecode,
    s2: Seq<Type>,
)
    requires
        spec_post_transition(s, local_tys, ty_args, r, i) == Ok::<Seq<Type>, TypeCheckError>(s2),
    ensures
        !is_control_flow(i),
        s.len() >= post_pops(i, r),
        s2.len() == s.len() - post_pops(i, r) + post_pushes(i, r),
{
}

/// Every element accepted by [`spec_pack_check`] from position `k` on
/// equals its declared field type, consumed in reverse declaration order.
proof fn lemma_pack_check_elements(
    popped: Seq<Type>,
    expected: Seq<Type>,
    fab: AbilitySet,
    r: Resolver,
    k: int,
)
    requires
        0 <= k <= popped.len(),
        popped.len() == expected.len(),
        spec_pack_check(popped, expected, fab, r, k) is Ok,
    ensures
        forall|j: int| k <= j < popped.len() ==> popped[j] == expected[expected.len() - 1 - j],
    decreases popped.len() - k,
{
    if k < popped.len() {
        lemma_pack_check_elements(popped, expected, fab, r, k + 1);
    }
}

/// Round-trip law: a `Pack` of a struct followed immediately by an `Unpack`
/// of the same struct handle restores the exact pre-pack stack — the same
/// field types, in the same order.
pub proof fn lemma_pack_unpack_round_trip(
    s: Seq<Type>,
    local_tys: Seq<Type>,
    ty_args: Seq<Type>,
    r: Resolver,
    idx: u16,
    s1: Seq<Type>,
)
    requires
        spec_post_transition(s, local_tys, ty_args, r, Bytecode::Pack(idx)) == Ok::<
            Seq<Type>,
            TypeCheckError,
        >(s1),
    ensures
        spec_post_transition(s1, local_tys, ty_args, r, Bytecode::Unpack(idx)) == Ok::<
            Seq<Type>,
            TypeCheckError,
        >(s),
{
    let def = r.structs@[idx as int];
    let fc = def.field_count as int;
    let n = s.len() as int;
    let output = Type::Struct(idx as usize);
    let fab = spec_field_expected_abilities(spec_abilities(output, r));
    let popped = s.subrange(n - fc, n).reverse();
    lemma_pack_check_elements(popped, def.fields@, fab, r, 0);
    assert(s1.drop_last() =~= s.take(n - fc));
    assert forall|j: int| 0 <= j < fc implies def.fields@[j] == s[n - fc + j] by {
        assert(popped[fc - 1 - j] == def.fields@[j]);
        assert(popped[fc - 1 - j] == s[n - fc + j]);
    };
    assert(s.take(n - fc) + def.fields@ =~= s);
}

/// Round-trip law, generic form: a `PackGeneric` of a struct instantiation
/// followed immediately by an `UnpackGeneric` of the same handle, under the
/// same type arguments, restores the exact pre-pack stack.
pub proof fn lemma_pack_unpack_generic_round_trip(
    s: Seq<Type>,
    local_tys: Seq<Type>,
    ty_args: Seq<Type>,
    r: Resolver,
    idx: u16,
    s1: Seq<Type>,
)
    requires
        spec_post_transition(s, local_tys, ty_args, r, Bytecode::PackGeneric(idx)) == Ok::<
            Seq<Type>,
            TypeCheckError,
        >(s1),
    ensures
        spec_post_transition(s1, local_tys, ty_args, r, Bytecode::UnpackGeneric(idx)) == Ok::<
            Seq<Type>,
            TypeCheckError,
        >(s),
{
    let fc = r.struct_instantiations@[idx as int].field_count as int;
    let n = s.len() as int;
    let fields = crate::oracle::spec_generic_struct_fields(r, idx as int, ty_args);
    let output = crate::oracle::spec_generic_struct_type(r, idx as int, ty_args);
    let fab = spec_field_expected_abilities(spec_abilities(output, r));
    let popped = s.subrange(n - fc, n).reverse();
    lemma_pack_check_elements(popped, fields, fab, r, 0);
    assert(s1.drop_last() =~= s.take(n - fc));
    assert forall|j: int| 0 <= j < fc implies fields[j] == s[n - fc + j] by {
        assert(popped[fc - 1 - j] == fields[j]);
        assert(popped[fc - 1 - j] == s[n - fc + j]);
    };
    assert(s.take(n - fc) + fields =~= s);
}

} // verus!
