use vstd::prelude::*;

use crate::bytecode::Bytecode;
use crate::checker::ParanoidTypeChecker;
use crate::errors::TypeCheckError;
use crate::function::Locals;
use crate::oracle::{
    spec_abilities, spec_generic_field_owner, spec_generic_field_type, spec_generic_struct_fields,
    spec_generic_struct_type, spec_single_type, Resolver,
};
use crate::stack::TypeStack;
use crate::types::{field_expected_abilities, spec_field_expected_abilities, AbilitySet, Type};

verus! {

/// The local-slot indices named by `i` lie within the frame's local types.
/// The interpreter guarantees this for bytecode accepted by the offline
/// verifier; an index outside the frame is a loader defect the checker cannot
/// survive.
pub open spec fn pre_instr_wf(i: Bytecode, local_tys: Seq<Type>) -> bool {
    match i {
        Bytecode::StLoc(idx) => idx < local_tys.len(),
        _ => true,
    }
}

/// The symbolic effect of the pre-execution phase of one instruction on the
/// shadow stack `s`, given the frame's declared local types, the local-slot
/// validity mask, and the loaded metadata.
///
/// Most instructions check nothing here: their whole effect is deferred to
/// the post-execution phase, after gas has been charged for the real
/// operation. The exceptions, which must run while the frame is still alive:
/// a conditional branch and an abort consume their operand now, since a taken
/// branch or an abort never reaches a post checkpoint; a return demands the
/// Drop ability of every local slot still holding a live value, which is
/// implicitly discarded; and a store into a local checks the stored value's
/// type now and demands Drop of the slot's declared type when a live value is
/// about to be overwritten.
pub open spec fn spec_pre_transition(
    s: Seq<Type>,
    local_tys: Seq<Type>,
    locals_valid: Seq<bool>,
    r: Resolver,
    i: Bytecode,
) -> Result<Seq<Type>, TypeCheckError> {
    match i {
        Bytecode::BrTrue(_) | Bytecode::BrFalse(_) | Bytecode::Abort => if s.len() < 1 {
            Err(TypeCheckError::StackImbalance)
        } else {
            Ok(s.drop_last())
        },
        Bytecode::Ret => if exists|k: int|
            0 <= k < local_tys.len() && locals_valid[k] && !spec_abilities(
                local_tys[k],
                r,
            ).has_drop {
            Err(TypeCheckError::AbilityViolation)
        } else {
            Ok(s)
        },
        Bytecode::StLoc(idx) => if s.len() < 1 {
            Err(TypeCheckError::StackImbalance)
        } else if local_tys[idx as int] != s.last() {
            Err(TypeCheckError::TypeMismatch)
        } else if locals_valid[idx as int] && !spec_abilities(
            local_tys[idx as int],
            r,
        ).has_drop {
            Err(TypeCheckError::AbilityViolation)
        } else {
            Ok(s.drop_last())
        },
        _ => Ok(s),
    }
}

/// The table indices named by `i` lie within the resolver's tables and the
/// frame's local types. The interpreter guarantees this for bytecode accepted
/// by the offline verifier.
pub open spec fn post_instr_wf(i: Bytecode, r: Resolver, local_tys: Seq<Type>) -> bool {
    match i {
        Bytecode::LdConst(idx) => idx < r.constant_types@.len(),
        Bytecode::CopyLoc(idx) => idx < local_tys.len(),
        Bytecode::MoveLoc(idx) => idx < local_tys.len(),
        Bytecode::MutBorrowLoc(idx) => idx < local_tys.len(),
        Bytecode::ImmBorrowLoc(idx) => idx < local_tys.len(),
        Bytecode::ImmBorrowField(idx) | Bytecode::MutBorrowField(idx) => idx
            < r.field_handles@.len(),
        Bytecode::ImmBorrowFieldGeneric(idx) | Bytecode::MutBorrowFieldGeneric(idx) => idx
            < r.field_instantiations@.len(),
        Bytecode::Pack(idx) | Bytecode::Unpack(idx) => idx < r.structs@.len(),
        Bytecode::PackGeneric(idx)
        | Bytecode::UnpackGeneric(idx)
        | Bytecode::MutBorrowGlobalGeneric(idx)
        | Bytecode::ImmBorrowGlobalGeneric(idx)
        | Bytecode::MoveToGeneric(idx)
        | Bytecode::MoveFromGeneric(idx) => idx < r.struct_instantiations@.len(),
        Bytecode::VecPack(idx, _)
        | Bytecode::VecLen(idx)
        | Bytecode::VecImmBorrow(idx)
        | Bytecode::VecMutBorrow(idx)
        | Bytecode::VecPushBack(idx)
        | Bytecode::VecPopBack(idx)
        | Bytecode::VecUnpack(idx, _)
        | Bytecode::VecSwap(idx) => idx < r.single_types@.len(),
        _ => true,
    }
}

/// The element checks of a struct-packing instruction, from position `k` on:
/// the values popped for the fields (`popped`, topmost first) are consumed in
/// reverse declaration order, so `popped[k]` must equal the declared field
/// type `expected[expected.len() - 1 - k]`, and each popped value's ability
/// set must dominate the field-expected set `fab`. The ability of an element
/// is checked before its type, and elements are checked in popped order.
pub open spec fn spec_pack_check(
    popped: Seq<Type>,
    expected: Seq<Type>,
    fab: AbilitySet,
    r: Resolver,
    k: int,
) -> Result<(), TypeCheckError>
    decreases popped.len() - k,
{
    if k < 0 || k >= popped.len() {
        Ok(())
    } else if !fab.spec_is_subset(spec_abilities(popped[k], r)) {
        Err(TypeCheckError::AbilityViolation)
    } else if popped[k] != expected[expected.len() - 1 - k] {
        Err(TypeCheckError::TypeMismatch)
    } else {
        spec_pack_check(popped, expected, fab, r, k + 1)
    }
}

/// The symbolic effect of the post-execution phase of one instruction on the
/// shadow stack `s`, given the frame's declared local types, the frame's
/// concrete type arguments, and the loaded metadata: one transition rule per
/// opcode. Control-transfer opcodes must never reach this table — the
/// interpreter short-circuits them — so they yield `MalformedControlFlow`.
pub open spec fn spec_post_transition(
    s: Seq<Type>,
    local_tys: Seq<Type>,
    ty_args: Seq<Type>,
    r: Resolver,
    i: Bytecode,
) -> Result<Seq<Type>, TypeCheckError> {
    match i {
        Bytecode::BrTrue(_) | Bytecode::BrFalse(_) => Ok(s),
        Bytecode::Branch(_)
        | Bytecode::Ret
        | Bytecode::Call(_)
        | Bytecode::CallGeneric(_)
        | Bytecode::Abort => Err(TypeCheckError::MalformedControlFlow),
        Bytecode::Pop => if s.len() < 1 {
            Err(TypeCheckError::StackImbalance)
        } else if !spec_abilities(s.last(), r).has_drop {
            Err(TypeCheckError::AbilityViolation)
        } else {
            Ok(s.drop_last())
        },
        Bytecode::LdU8(_) => Ok(s.push(Type::U8)),
        Bytecode::LdU16(_) => Ok(s.push(Type::U16)),
        Bytecode::LdU32(_) => Ok(s.push(Type::U32)),
        Bytecode::LdU64(_) => Ok(s.push(Type::U64)),
        Bytecode::LdU128(_) => Ok(s.push(Type::U128)),
        Bytecode::LdU256 => Ok(s.push(Type::U256)),
        Bytecode::LdTrue | Bytecode::LdFalse => Ok(s.push(Type::Bool)),
        Bytecode::LdConst(idx) => Ok(s.push(r.constant_types@[idx as int])),
        Bytecode::CopyLoc(idx) => if !spec_abilities(local_tys[idx as int], r).has_copy {
            Err(TypeCheckError::AbilityViolation)
        } else {
            Ok(s.push(local_tys[idx as int]))
        },
        Bytecode::MoveLoc(idx) => Ok(s.push(local_tys[idx as int])),
        Bytecode::StLoc(_) => Ok(s),
        Bytecode::MutBorrowLoc(idx) => Ok(
            s.push(Type::MutableReference(Box::new(local_tys[idx as int]))),
        ),
        Bytecode::ImmBorrowLoc(idx) => Ok(
            s.push(Type::Reference(Box::new(local_tys[idx as int]))),
        ),
        Bytecode::ImmBorrowField(idx) => {
            let owner = Type::Struct(r.field_handles@[idx as int].owner);
            if s.len() < 1 {
                Err(TypeCheckError::StackImbalance)
            } else if !s.last().spec_ref_compatible(owner) {
                Err(TypeCheckError::TypeMismatch)
            } else {
                Ok(
                    s.drop_last().push(
                        Type::Reference(Box::new(crate::oracle::spec_field_type(r, idx as int))),
                    ),
                )
            }
        },
        Bytecode::MutBorrowField(idx) => {
            let owner = Type::Struct(r.field_handles@[idx as int].owner);
            if s.len() < 1 {
                Err(TypeCheckError::StackImbalance)
            } else if s.last() != Type::MutableReference(Box::new(owner)) {
                Err(TypeCheckError::TypeMismatch)
            } else {
                Ok(
                    s.drop_last().push(
                        Type::MutableReference(
                            Box::new(crate::oracle::spec_field_type(r, idx as int)),
                        ),
                    ),
                )
            }
        },
        Bytecode::ImmBorrowFieldGeneric(idx) => {
            let owner = spec_generic_field_owner(r, idx as int, ty_args);
            if s.len() < 1 {
                Err(TypeCheckError::StackImbalance)
            } else if !s.last().spec_ref_compatible(owner) {
                Err(TypeCheckError::TypeMismatch)
            } else {
                Ok(
                    s.drop_last().push(
                        Type::Reference(Box::new(spec_generic_field_type(r, idx as int, ty_args))),
                    ),
                )
            }
        },
        Bytecode::MutBorrowFieldGeneric(idx) => {
            let owner = spec_generic_field_owner(r, idx as int, ty_args);
            if s.len() < 1 {
                Err(TypeCheckError::StackImbalance)
            } else if s.last() != Type::MutableReference(Box::new(owner)) {
                Err(TypeCheckError::TypeMismatch)
            } else {
                Ok(
                    s.drop_last().push(
                        Type::MutableReference(
                            Box::new(spec_generic_field_type(r, idx as int, ty_args)),
                        ),
                    ),
                )
            }
        },
        Bytecode::Pack(idx) => {
            let def = r.structs@[idx as int];
            let output = Type::Struct(idx as usize);
            let fab = spec_field_expected_abilities(spec_abilities(output, r));
            if def.field_count != def.fields@.len() {
                Err(TypeCheckError::ArgCountMismatch)
            } else if s.len() < def.field_count {
                Err(TypeCheckError::StackImbalance)
            } else {
                let popped = s.subrange(s.len() - def.field_count, s.len() as int).reverse();
                match spec_pack_check(popped, def.fields@, fab, r, 0) {
                    Ok(()) => Ok(s.take(s.len() - def.field_count).push(output)),
                    Err(e) => Err(e),
                }
            }
        },
        Bytecode::PackGeneric(idx) => {
            let field_count = r.struct_instantiations@[idx as int].field_count;
            let fields = spec_generic_struct_fields(r, idx as int, ty_args);
            let output = spec_generic_struct_type(r, idx as int, ty_args);
            let fab = spec_field_expected_abilities(spec_abilities(output, r));
            if field_count != fields.len() {
                Err(TypeCheckError::ArgCountMismatch)
            } else if s.len() < field_count {
                Err(TypeCheckError::StackImbalance)
            } else {
                let popped = s.subrange(s.len() - field_count, s.len() as int).reverse();
                match spec_pack_check(popped, fields, fab, r, 0) {
                    Ok(()) => Ok(s.take(s.len() - field_count).push(output)),
                    Err(e) => Err(e),
                }
            }
        },
        Bytecode::Unpack(idx) => {
            if s.len() < 1 {
                Err(TypeCheckError::StackImbalance)
            } else if s.last() != Type::Struct(idx as usize) {
                Err(TypeCheckError::TypeMismatch)
            } else {
                Ok(s.drop_last() + r.structs@[idx as int].fields@)
            }
        },
        Bytecode::UnpackGeneric(idx) => {
            if s.len() < 1 {
                Err(TypeCheckError::StackImbalance)
            } else if s.last() != spec_generic_struct_type(r, idx as int, ty_args) {
                Err(TypeCheckError::TypeMismatch)
            } else {
                Ok(s.drop_last() + spec_generic_struct_fields(r, idx as int, ty_args))
            }
        },
        Bytecode::ReadRef => {
            if s.len() < 1 {
                Err(TypeCheckError::StackImbalance)
            } else {
                match s.last() {
                    Type::Reference(inner) => if !spec_abilities(*inner, r).has_copy {
                        Err(TypeCheckError::AbilityViolation)
                    } else {
                        Ok(s.drop_last().push(*inner))
                    },
                    Type::MutableReference(inner) => if !spec_abilities(*inner, r).has_copy {
                        Err(TypeCheckError::AbilityViolation)
                    } else {
                        Ok(s.drop_last().push(*inner))
                    },
                    _ => Err(TypeCheckError::TypeMismatch),
                }
            }
        },
        Bytecode::WriteRef => {
            if s.len() < 2 {
                Err(TypeCheckError::StackImbalance)
            } else {
                match s.last() {
                    Type::MutableReference(inner) => if *inner != s[s.len() - 2] {
                        Err(TypeCheckError::TypeMismatch)
                    } else if !spec_abilities(*inner, r).has_drop {
                        Err(TypeCheckError::AbilityViolation)
                    } else {
                        Ok(s.take(s.len() - 2))
                    },
                    _ => Err(TypeCheckError::TypeMismatch),
                }
            }
        },
        Bytecode::CastU8 => if s.len() < 1 {
            Err(TypeCheckError::StackImbalance)
        } else {
            Ok(s.drop_last().push(Type::U8))
        },
        Bytecode::CastU16 => if s.len() < 1 {
            Err(TypeCheckError::StackImbalance)
        } else {
            Ok(s.drop_last().push(Type::U16))
        },
        Bytecode::CastU32 => if s.len() < 1 {
            Err(TypeCheckError::StackImbalance)
        } else {
            Ok(s.drop_last().push(Type::U32))
        },
        Bytecode::CastU64 => if s.len() < 1 {
            Err(TypeCheckError::StackImbalance)
        } else {
            Ok(s.drop_last().push(Type::U64))
        },
        Bytecode::CastU128 => if s.len() < 1 {
            Err(TypeCheckError::StackImbalance)
        } else {
            Ok(s.drop_last().push(Type::U128))
        },
        Bytecode::CastU256 => if s.len() < 1 {
            Err(TypeCheckError::StackImbalance)
        } else {
            Ok(s.drop_last().push(Type::U256))
        },
        Bytecode::Add
        | Bytecode::Sub
        | Bytecode::Mul
        | Bytecode::Mod
        | Bytecode::Div
        | Bytecode::BitOr
        | Bytecode::BitAnd
        | Bytecode::Xor
        | Bytecode::Or
        | Bytecode::And => {
            if s.len() < 2 {
                Err(TypeCheckError::StackImbalance)
            } else if s.last() != s[s.len() - 2] {
                Err(TypeCheckError::TypeMismatch)
            } else {
                Ok(s.take(s.len() - 2).push(s.last()))
            }
        },
        Bytecode::Shl | Bytecode::Shr => {
            if s.len() < 2 {
                Err(TypeCheckError::StackImbalance)
            } else {
                Ok(s.take(s.len() - 2).push(s[s.len() - 2]))
            }
        },
        Bytecode::Lt | Bytecode::Gt | Bytecode::Le | Bytecode::Ge => {
            if s.len() < 2 {
                Err(TypeCheckError::StackImbalance)
            } else if s.last() != s[s.len() - 2] {
                Err(TypeCheckError::TypeMismatch)
            } else {
                Ok(s.take(s.len() - 2).push(Type::Bool))
            }
        },
        Bytecode::Eq | Bytecode::Neq => {
            if s.len() < 2 {
                Err(TypeCheckError::StackImbalance)
            } else if s.last() != s[s.len() - 2] {
                Err(TypeCheckError::TypeMismatch)
            } else if !spec_abilities(s.last(), r).has_drop {
                Err(TypeCheckError::AbilityViolation)
            } else {
                Ok(s.take(s.len() - 2).push(Type::Bool))
            }
        },
        Bytecode::MutBorrowGlobal(idx) => {
            let ty = Type::Struct(idx as usize);
            if s.len() < 1 {
                Err(TypeCheckError::StackImbalance)
            } else if s.last() != Type::Address {
                Err(TypeCheckError::TypeMismatch)
            } else if !spec_abilities(ty, r).has_key {
                Err(TypeCheckError::AbilityViolation)
            } else {
                Ok(s.drop_last().push(Type::MutableReference(Box::new(ty))))
            }
        },
        Bytecode::ImmBorrowGlobal(idx) => {
            let ty = Type::Struct(idx as usize);
            if s.len() < 1 {
                Err(TypeCheckError::StackImbalance)
            } else if s.last() != Type::Address {
                Err(TypeCheckError::TypeMismatch)
            } else if !spec_abilities(ty, r).has_key {
                Err(TypeCheckError::AbilityViolation)
            } else {
                Ok(s.drop_last().push(Type::Reference(Box::new(ty))))
            }
        },
        Bytecode::MutBorrowGlobalGeneric(idx) => {
            let ty = spec_generic_struct_type(r, idx as int, ty_args);
            if s.len() < 1 {
                Err(TypeCheckError::StackImbalance)
            } else if s.last() != Type::Address {
                Err(TypeCheckError::TypeMismatch)
            } else if !spec_abilities(ty, r).has_key {
                Err(TypeCheckError::AbilityViolation)
            } else {
                Ok(s.drop_last().push(Type::MutableReference(Box::new(ty))))
            }
        },
        Bytecode::ImmBorrowGlobalGeneric(idx) => {
            let ty = spec_generic_struct_type(r, idx as int, ty_args);
            if s.len() < 1 {
                Err(TypeCheckError::StackImbalance)
            } else if s.last() != Type::Address {
                Err(TypeCheckError::TypeMismatch)
            } else if !spec_abilities(ty, r).has_key {
                Err(TypeCheckError::AbilityViolation)
            } else {
                Ok(s.drop_last().push(Type::Reference(Box::new(ty))))
            }
        },
        Bytecode::Exists(_) | Bytecode::ExistsGeneric(_) => {
            if s.len() < 1 {
                Err(TypeCheckError::StackImbalance)
            } else if s.last() != Type::Address {
                Err(TypeCheckError::TypeMismatch)
            } else {
                Ok(s.drop_last().push(Type::Bool))
            }
        },
        Bytecode::MoveTo(idx) => {
            let ty = Type::Struct(idx as usize);
            if s.len() < 2 {
                Err(TypeCheckError::StackImbalance)
            } else if s[s.len() - 2] != Type::Reference(Box::new(Type::Signer)) {
                Err(TypeCheckError::TypeMismatch)
            } else if s.last() != ty {
                Err(TypeCheckError::TypeMismatch)
            } else if !spec_abilities(ty, r).has_key {
                Err(TypeCheckError::AbilityViolation)
            } else {
                Ok(s.take(s.len() - 2))
            }
        },
        Bytecode::MoveToGeneric(idx) => {
            let ty = spec_generic_struct_type(r, idx as int, ty_args);
            if s.len() < 2 {
                Err(TypeCheckError::StackImbalance)
            } else if s[s.len() - 2] != Type::Reference(Box::new(Type::Signer)) {
                Err(TypeCheckError::TypeMismatch)
            } else if s.last() != ty {
                Err(TypeCheckError::TypeMismatch)
            } else if !spec_abilities(ty, r).has_key {
                Err(TypeCheckError::AbilityViolation)
            } else {
                Ok(s.take(s.len() - 2))
            }
        },
        Bytecode::MoveFrom(idx) => {
            let ty = Type::Struct(idx as usize);
            if s.len() < 1 {
                Err(TypeCheckError::StackImbalance)
            } else if s.last() != Type::Address {
                Err(TypeCheckError::TypeMismatch)
            } else if !spec_abilities(ty, r).has_key {
                Err(TypeCheckError::AbilityViolation)
            } else {
                Ok(s.drop_last().push(ty))
            }
        },
        Bytecode::MoveFromGeneric(idx) => {
            let ty = spec_generic_struct_type(r, idx as int, ty_args);
            if s.len() < 1 {
                Err(TypeCheckError::StackImbalance)
            } else if s.last() != Type::Address {
                Err(TypeCheckError::TypeMismatch)
            } else if !spec_abilities(ty, r).has_key {
                Err(TypeCheckError::AbilityViolation)
            } else {
                Ok(s.drop_last().push(ty))
            }
        },
        Bytecode::FreezeRef => {
            if s.len() < 1 {
                Err(TypeCheckError::StackImbalance)
            } else {
                match s.last() {
                    Type::MutableReference(inner) => Ok(s.drop_last().push(Type::Reference(inner))),
                    _ => Err(TypeCheckError::TypeMismatch),
                }
            }
        },
        Bytecode::Nop => Ok(s),
        Bytecode::Not => {
            if s.len() < 1 {
                Err(TypeCheckError::StackImbalance)
            } else if s.last() != Type::Bool {
                Err(TypeCheckError::TypeMismatch)
            } else {
                Ok(s.drop_last().push(Type::Bool))
            }
        },
        Bytecode::VecPack(idx, num) => {
            let elem = spec_single_type(r, idx as int, ty_args);
            if s.len() < num {
                Err(TypeCheckError::StackImbalance)
            } else if !(forall|k: int| s.len() - num <= k < s.len() ==> s[k] == elem) {
                Err(TypeCheckError::TypeMismatch)
            } else {
                Ok(s.take(s.len() - num).push(Type::Vector(Box::new(elem))))
            }
        },
        Bytecode::VecLen(idx) => {
            let elem = spec_single_type(r, idx as int, ty_args);
            if s.len() < 1 {
                Err(TypeCheckError::StackImbalance)
            } else if !s.last().spec_is_vec_ref(elem, false) {
                Err(TypeCheckError::TypeMismatch)
            } else {
                Ok(s.drop_last().push(Type::U64))
            }
        },
        Bytecode::VecImmBorrow(idx) => {
            let elem = spec_single_type(r, idx as int, ty_args);
            if s.len() < 1 {
                Err(TypeCheckError::StackImbalance)
            } else if s.last() != Type::U64 {
                Err(TypeCheckError::TypeMismatch)
            } else if s.len() < 2 {
                Err(TypeCheckError::StackImbalance)
            } else if !s[s.len() - 2].spec_is_vec_ref(elem, false) {
                Err(TypeCheckError::TypeMismatch)
            } else {
                Ok(s.take(s.len() - 2).push(Type::Reference(Box::new(elem))))
            }
        },
        Bytecode::VecMutBorrow(idx) => {
            let elem = spec_single_type(r, idx as int, ty_args);
            if s.len() < 1 {
                Err(TypeCheckError::StackImbalance)
            } else if s.last() != Type::U64 {
                Err(TypeCheckError::TypeMismatch)
            } else if s.len() < 2 {
                Err(TypeCheckError::StackImbalance)
            } else if !s[s.len() - 2].spec_is_vec_ref(elem, true) {
                Err(TypeCheckError::TypeMismatch)
            } else {
                Ok(s.take(s.len() - 2).push(Type::MutableReference(Box::new(elem))))
            }
        },
        Bytecode::VecPushBack(idx) => {
            let elem = spec_single_type(r, idx as int, ty_args);
            if s.len() < 1 {
                Err(TypeCheckError::StackImbalance)
            } else if s.last() != elem {
                Err(TypeCheckError::TypeMismatch)
            } else if s.len() < 2 {
                Err(TypeCheckError::StackImbalance)
            } else if !s[s.len() - 2].spec_is_vec_ref(elem, true) {
                Err(TypeCheckError::TypeMismatch)
            } else {
                Ok(s.take(s.len() - 2))
            }
        },
        Bytecode::VecPopBack(idx) => {
            let elem = spec_single_type(r, idx as int, ty_args);
            if s.len() < 1 {
                Err(TypeCheckError::StackImbalance)
            } else if !s.last().spec_is_vec_ref(elem, true) {
                Err(TypeCheckError::TypeMismatch)
            } else {
                Ok(s.drop_last().push(elem))
            }
        },
        Bytecode::VecUnpack(idx, num) => {
            let elem = spec_single_type(r, idx as int, ty_args);
            if s.len() < 1 {
                Err(TypeCheckError::StackImbalance)
            } else {
                match s.last() {
                    Type::Vector(v) => if *v != elem {
                        Err(TypeCheckError::TypeMismatch)
                    } else {
                        Ok(s.drop_last() + Seq::new(num as nat, |k: int| elem))
                    },
                    _ => Err(TypeCheckError::TypeMismatch),
                }
            }
        },
        Bytecode::VecSwap(idx) => {
            let elem = spec_single_type(r, idx as int, ty_args);
            if s.len() < 1 {
                Err(TypeCheckError::StackImbalance)
            } else if s.last() != Type::U64 {
                Err(TypeCheckError::TypeMismatch)
            } else if s.len() < 2 {
                Err(TypeCheckError::StackImbalance)
            } else if s[s.len() - 2] != Type::U64 {
                Err(TypeCheckError::TypeMismatch)
            } else if s.len() < 3 {
                Err(TypeCheckError::StackImbalance)
            } else if !s[s.len() - 3].spec_is_vec_ref(elem, true) {
                Err(TypeCheckError::TypeMismatch)
            } else {
                Ok(s.take(s.len() - 3))
            }
        },
    }
}

/// Appends every type of `tys`, in order.
#[verifier::loop_isolation(false)]
fn push_types(operand_stack: &mut TypeStack, tys: &Vec<Type>)
    ensures
        final(operand_stack)@ == old(operand_stack)@ + tys@,
{
    let mut i: usize = 0;
    while i < tys.len()
        invariant
            i <= tys@.len(),
            operand_stack@ == old(operand_stack)@ + tys@.take(i as int),
        decreases tys@.len() - i,
    {
        operand_stack.push(tys[i].clone());
        proof {
            assert(operand_stack@ =~= old(operand_stack)@ + tys@.take(i + 1));
        }
        i = i + 1;
    }
    proof {
        assert(old(operand_stack)@ + tys@.take(tys@.len() as int) =~= old(operand_stack)@ + tys@);
    }
}

/// Appends `n` copies of `ty`.
#[verifier::loop_isolation(false)]
fn push_copies(operand_stack: &mut TypeStack, ty: &Type, n: usize)
    ensures
        final(operand_stack)@ == old(operand_stack)@ + Seq::new(n as nat, |k: int| *ty),
{
    let mut i: usize = 0;
    while i < n
        invariant
            i <= n,
            operand_stack@ == old(operand_stack)@ + Seq::new(i as nat, |k: int| *ty),
        decreases n - i,
    {
        operand_stack.push(ty.clone());
        proof {
            assert(operand_stack@ =~= old(operand_stack)@ + Seq::new((i + 1) as nat, |k: int| *ty));
        }
        i = i + 1;
    }
}

/// Executable form of [`spec_pack_check`], from position `k` on.
fn check_pack_elements(
    popped: &Vec<Type>,
    expected: &Vec<Type>,
    fab: AbilitySet,
    resolver: &Resolver,
    k: usize,
) -> (res: Result<(), TypeCheckError>)
    requires
        popped@.len() == expected@.len(),
        k <= popped@.len(),
    ensures
        res == spec_pack_check(popped@, expected@, fab, *resolver, k as int),
    decreases popped@.len() - k,
{
    if k == popped.len() {
        Ok(())
    } else {
        let a = resolver.abilities(&popped[k]);
        if !fab.is_subset(a) {
            return Err(TypeCheckError::AbilityViolation);
        }
        popped[k].check_eq(&expected[expected.len() - 1 - k])?;
        check_pack_elements(popped, expected, fab, resolver, k + 1)
    }
}

/// `Ok` exactly when every element of `popped` equals `elem`; the failure is
/// a type mismatch.
#[verifier::loop_isolation(false)]
fn check_elements_equal(popped: &Vec<Type>, elem: &Type) -> (res: Result<(), TypeCheckError>)
    ensures
        res is Ok <==> (forall|k: int| 0 <= k < popped@.len() ==> popped@[k] == *elem),
        res is Err ==> res == Err::<(), TypeCheckError>(TypeCheckError::TypeMismatch),
{
    let mut i: usize = 0;
    while i < popped.len()
        invariant
            i <= popped@.len(),
            forall|k: int| 0 <= k < i ==> popped@[k] == *elem,
        decreases popped@.len() - i,
    {
        popped[i].check_eq(elem)?;
        i = i + 1;
    }
    Ok(())
}

impl ParanoidTypeChecker {
    /// Pre-execution type checks of one instruction; see
    /// [`spec_pre_transition`].
    #[verifier::loop_isolation(false)]
    pub fn pre_execution_type_stack_transition(
        operand_stack: &mut TypeStack,
        local_tys: &Vec<Type>,
        locals: &Locals,
        _ty_args: &Vec<Type>,
        resolver: &Resolver,
        instruction: &Bytecode,
    ) -> (res: Result<(), TypeCheckError>)
        requires
            pre_instr_wf(*instruction, local_tys@),
            locals@.len() == local_tys@.len(),
        ensures
            ({
                let t = spec_pre_transition(
                    old(operand_stack)@,
                    local_tys@,
                    locals@,
                    *resolver,
                    *instruction,
                );
                &&& (res is Ok <==> t is Ok)
                &&& (res is Ok ==> t == Ok::<Seq<Type>, TypeCheckError>(final(operand_stack)@))
                &&& (res matches Err(e) ==> t == Err::<Seq<Type>, TypeCheckError>(e))
                &&& (res is Err ==> final(operand_stack)@.len() <= old(operand_stack)@.len())
            }),
    {
        match instruction {
            Bytecode::BrTrue(_) | Bytecode::BrFalse(_) | Bytecode::Abort => {
                operand_stack.pop()?;
                Ok(())
            },
            Bytecode::Ret => {
                let mut idx: usize = 0;
                while idx < local_tys.len()
                    invariant
                        idx <= local_tys@.len(),
                        locals@.len() == local_tys@.len(),
                        forall|k: int|
                            0 <= k < idx ==> !(locals@[k] && !spec_abilities(
                                local_tys@[k],
                                *resolver,
                            ).has_drop),
                    decreases local_tys@.len() - idx,
                {
                    if !locals.is_invalid(idx) {
                        let a = resolver.abilities(&local_tys[idx]);
                        if !a.has_drop {
                            proof {
                                let k = idx as int;
                                assert(0 <= k < local_tys@.len() && locals@[k] && !spec_abilities(
                                    local_tys@[k],
                                    *resolver,
                                ).has_drop);
                                assert(exists|k: int|
                                    0 <= k < local_tys@.len() && locals@[k] && !spec_abilities(
                                        local_tys@[k],
                                        *resolver,
                                    ).has_drop);
                            }
                            return Err(TypeCheckError::AbilityViolation);
                        }
                    }
                    idx = idx + 1;
                }
                Ok(())
            },
            Bytecode::StLoc(idx) => {
                let slot = *idx as usize;
                let ty = local_tys[slot].clone();
                let val_ty = operand_stack.pop()?;
                ty.check_eq(&val_ty)?;
                if !locals.is_invalid(slot) {
                    let a = resolver.abilities(&ty);
                    if !a.has_drop {
                        return Err(TypeCheckError::AbilityViolation);
                    }
                }
                Ok(())
            },
            _ => Ok(()),
        }
    }

    /// Post-execution type checks of one instruction; see
    /// [`spec_post_transition`]. Together with the pre-execution phase this
    /// constitutes the full type-stack transition of the instruction.
    #[verifier::loop_isolation(false)]
    #[verifier::rlimit(100)]
    pub fn post_execution_type_stack_transition(
        operand_stack: &mut TypeStack,
        local_tys: &Vec<Type>,
        ty_args: &Vec<Type>,
        resolver: &Resolver,
        instruction: &Bytecode,
    ) -> (res: Result<(), TypeCheckError>)
        requires
            resolver.wf(),
            post_instr_wf(*instruction, *resolver, local_tys@),
        ensures
            ({
                let t = spec_post_transition(
                    old(operand_stack)@,
                    local_tys@,
                    ty_args@,
                    *resolver,
                    *instruction,
                );
                &&& (res is Ok <==> t is Ok)
                &&& (res is Ok ==> t == Ok::<Seq<Type>, TypeCheckError>(final(operand_stack)@))
                &&& (res matches Err(e) ==> t == Err::<Seq<Type>, TypeCheckError>(e))
                &&& (res is Err ==> final(operand_stack)@.len() <= old(operand_stack)@.len())
            }),
    {
        match instruction {
            Bytecode::BrTrue(_) | Bytecode::BrFalse(_) => Ok(()),
            Bytecode::Branch(_)
            | Bytecode::Ret
            | Bytecode::Call(_)
            | Bytecode::CallGeneric(_)
            | Bytecode::Abort => Err(TypeCheckError::MalformedControlFlow),
            Bytecode::Pop => {
                let ty = operand_stack.pop()?;
                let a = resolver.abilities(&ty);
                if !a.has_drop {
                    return Err(TypeCheckError::AbilityViolation);
                }
                Ok(())
            },
            Bytecode::LdU8(_) => {
                operand_stack.push(Type::U8);
                Ok(())
            },
            Bytecode::LdU16(_) => {
                operand_stack.push(Type::U16);
                Ok(())
            },
            Bytecode::LdU32(_) => {
                operand_stack.push(Type::U32);
                Ok(())
            },
            Bytecode::LdU64(_) => {
                operand_stack.push(Type::U64);
                Ok(())
            },
            Bytecode::LdU128(_) => {
                operand_stack.push(Type::U128);
                Ok(())
            },
            Bytecode::LdU256 => {
                operand_stack.push(Type::U256);
                Ok(())
            },
            Bytecode::LdTrue | Bytecode::LdFalse => {
                operand_stack.push(Type::Bool);
                Ok(())
            },
            Bytecode::LdConst(idx) => {
                operand_stack.push(resolver.constant_type_at(*idx as usize));
                Ok(())
            },
            Bytecode::CopyLoc(idx) => {
                let ty = local_tys[*idx as usize].clone();
                let a = resolver.abilities(&ty);
                if !a.has_copy {
                    return Err(TypeCheckError::AbilityViolation);
                }
                operand_stack.push(ty);
                Ok(())
            },
            Bytecode::MoveLoc(idx) => {
                let ty = local_tys[*idx as usize].clone();
                operand_stack.push(ty);
                Ok(())
            },
            Bytecode::StLoc(_) => Ok(()),
            Bytecode::MutBorrowLoc(idx) => {
                let ty = local_tys[*idx as usize].clone();
                operand_stack.push(Type::MutableReference(Box::new(ty)));
                Ok(())
            },
            Bytecode::ImmBorrowLoc(idx) => {
                let ty = local_tys[*idx as usize].clone();
                operand_stack.push(Type::Reference(Box::new(ty)));
                Ok(())
            },
            Bytecode::ImmBorrowField(idx) => {
                let expected_ty = resolver.field_handle_to_struct(*idx as usize);
                let top_ty = operand_stack.pop()?;
                top_ty.check_ref_eq(&expected_ty)?;
                operand_stack.push(
                    Type::Reference(Box::new(resolver.get_field_type(*idx as usize))),
                );
                Ok(())
            },
            Bytecode::MutBorrowField(idx) => {
                let expected_ty = resolver.field_handle_to_struct(*idx as usize);
                let top_ty = operand_stack.pop()?;
                top_ty.check_eq(&Type::MutableReference(Box::new(expected_ty)))?;
                operand_stack.push(
                    Type::MutableReference(Box::new(resolver.get_field_type(*idx as usize))),
                );
                Ok(())
            },
            Bytecode::ImmBorrowFieldGeneric(idx) => {
                let expected_ty = resolver.field_instantiation_to_struct(*idx as usize, ty_args);
                let top_ty = operand_stack.pop()?;
                top_ty.check_ref_eq(&expected_ty)?;
                operand_stack.push(
                    Type::Reference(
                        Box::new(resolver.instantiate_generic_field(*idx as usize, ty_args)),
                    ),
                );
                Ok(())
            },
            Bytecode::MutBorrowFieldGeneric(idx) => {
                let expected_ty = resolver.field_instantiation_to_struct(*idx as usize, ty_args);
                let top_ty = operand_stack.pop()?;
                top_ty.check_eq(&Type::MutableReference(Box::new(expected_ty)))?;
                operand_stack.push(
                    Type::MutableReference(
                        Box::new(resolver.instantiate_generic_field(*idx as usize, ty_args)),
                    ),
                );
                Ok(())
            },
            Bytecode::Pack(idx) => {
                let field_count = resolver.field_count(*idx as usize);
                let args_ty = resolver.get_struct_fields(*idx as usize);
                let output_ty = resolver.get_struct_type(*idx as usize);
                let ability = resolver.abilities(&output_ty);
                let field_expected = field_expected_abilities(ability);
                if field_count != args_ty.len() {
                    return Err(TypeCheckError::ArgCountMismatch);
                }
                let popped = operand_stack.pop_n(field_count)?;
                check_pack_elements(&popped, &args_ty, field_expected, resolver, 0)?;
                operand_stack.push(output_ty);
                Ok(())
            },
            Bytecode::PackGeneric(idx) => {
                let field_count = resolver.field_instantiation_count(*idx as usize);
                let args_ty = resolver.instantiate_generic_struct_fields(*idx as usize, ty_args);
                let output_ty = resolver.instantiate_generic_type(*idx as usize, ty_args);
                let ability = resolver.abilities(&output_ty);
                let field_expected = field_expected_abilities(ability);
                if field_count != args_ty.len() {
                    return Err(TypeCheckError::ArgCountMismatch);
                }
                let popped = operand_stack.pop_n(field_count)?;
                check_pack_elements(&popped, &args_ty, field_expected, resolver, 0)?;
                operand_stack.push(output_ty);
                Ok(())
            },
            Bytecode::Unpack(idx) => {
                let struct_ty = operand_stack.pop()?;
                struct_ty.check_eq(&resolver.get_struct_type(*idx as usize))?;
                let fields = resolver.get_struct_fields(*idx as usize);
                push_types(operand_stack, &fields);
                Ok(())
            },
            Bytecode::UnpackGeneric(idx) => {
                let struct_ty = operand_stack.pop()?;
                struct_ty.check_eq(&resolver.instantiate_generic_type(*idx as usize, ty_args))?;
                let fields = resolver.instantiate_generic_struct_fields(*idx as usize, ty_args);
                push_types(operand_stack, &fields);
                Ok(())
            },
            Bytecode::ReadRef => {
                let ref_ty = operand_stack.pop()?;
                match ref_ty {
                    Type::Reference(inner) => {
                        let a = resolver.abilities(&inner);
                        if !a.has_copy {
                            return Err(TypeCheckError::AbilityViolation);
                        }
                        operand_stack.push(*inner);
                        Ok(())
                    },
                    Type::MutableReference(inner) => {
                        let a = resolver.abilities(&inner);
                        if !a.has_copy {
                            return Err(TypeCheckError::AbilityViolation);
                        }
                        operand_stack.push(*inner);
                        Ok(())
                    },
                    _ => Err(TypeCheckError::TypeMismatch),
                }
            },
            Bytecode::WriteRef => {
                let ref_ty = operand_stack.pop()?;
                let val_ty = operand_stack.pop()?;
                proof {
                    assert(operand_stack@ =~= old(operand_stack)@.take(
                        old(operand_stack)@.len() - 2,
                    ));
                }
                match ref_ty {
                    Type::MutableReference(inner) => {
                        inner.check_eq(&val_ty)?;
                        let a = resolver.abilities(&inner);
                        if !a.has_drop {
                            return Err(TypeCheckError::AbilityViolation);
                        }
                        Ok(())
                    },
                    _ => Err(TypeCheckError::TypeMismatch),
                }
            },
            Bytecode::CastU8 => {
                operand_stack.pop()?;
                operand_stack.push(Type::U8);
                Ok(())
            },
            Bytecode::CastU16 => {
                operand_stack.pop()?;
                operand_stack.push(Type::U16);
                Ok(())
            },
            Bytecode::CastU32 => {
                operand_stack.pop()?;
                operand_stack.push(Type::U32);
                Ok(())
            },
            Bytecode::CastU64 => {
                operand_stack.pop()?;
                operand_stack.push(Type::U64);
                Ok(())
            },
            Bytecode::CastU128 => {
                operand_stack.pop()?;
                operand_stack.push(Type::U128);
                Ok(())
            },
            Bytecode::CastU256 => {
                operand_stack.pop()?;
                operand_stack.push(Type::U256);
                Ok(())
            },
            Bytecode::Add
            | Bytecode::Sub
            | Bytecode::Mul
            | Bytecode::Mod
            | Bytecode::Div
            | Bytecode::BitOr
            | Bytecode::BitAnd
            | Bytecode::Xor
            | Bytecode::Or
            | Bytecode::And => {
                let lhs = operand_stack.pop()?;
                let rhs = operand_stack.pop()?;
                proof {
                    assert(operand_stack@ =~= old(operand_stack)@.take(
                        old(operand_stack)@.len() - 2,
                    ));
                }
                lhs.check_eq(&rhs)?;
                operand_stack.push(lhs);
                Ok(())
            },
            Bytecode::Shl | Bytecode::Shr => {
                operand_stack.pop()?;
                let rhs = operand_stack.pop()?;
                proof {
                    assert(operand_stack@ =~= old(operand_stack)@.take(
                        old(operand_stack)@.len() - 2,
                    ));
                }
                operand_stack.push(rhs);
                Ok(())
            },
            Bytecode::Lt | Bytecode::Gt | Bytecode::Le | Bytecode::Ge => {
                let lhs = operand_stack.pop()?;
                let rhs = operand_stack.pop()?;
                proof {
                    assert(operand_stack@ =~= old(operand_stack)@.take(
                        old(operand_stack)@.len() - 2,
                    ));
                }
                lhs.check_eq(&rhs)?;
                operand_stack.push(Type::Bool);
                Ok(())
            },
            Bytecode::Eq | Bytecode::Neq => {
                let lhs = operand_stack.pop()?;
                let rhs = operand_stack.pop()?;
                proof {
                    assert(operand_stack@ =~= old(operand_stack)@.take(
                        old(operand_stack)@.len() - 2,
                    ));
                }
                lhs.check_eq(&rhs)?;
                let a = resolver.abilities(&lhs);
                if !a.has_drop {
                    return Err(TypeCheckError::AbilityViolation);
                }
                operand_stack.push(Type::Bool);
                Ok(())
            },
            Bytecode::MutBorrowGlobal(idx) => {
                operand_stack.pop()?.check_eq(&Type::Address)?;
                let ty = resolver.get_struct_type(*idx as usize);
                let a = resolver.abilities(&ty);
                if !a.has_key {
                    return Err(TypeCheckError::AbilityViolation);
                }
                operand_stack.push(Type::MutableReference(Box::new(ty)));
                Ok(())
            },
            Bytecode::ImmBorrowGlobal(idx) => {
                operand_stack.pop()?.check_eq(&Type::Address)?;
                let ty = resolver.get_struct_type(*idx as usize);
                let a = resolver.abilities(&ty);
                if !a.has_key {
                    return Err(TypeCheckError::AbilityViolation);
                }
                operand_stack.push(Type::Reference(Box::new(ty)));
                Ok(())
            },
            Bytecode::MutBorrowGlobalGeneric(idx) => {
                operand_stack.pop()?.check_eq(&Type::Address)?;
                let ty = resolver.instantiate_generic_type(*idx as usize, ty_args);
                let a = resolver.abilities(&ty);
                if !a.has_key {
                    return Err(TypeCheckError::AbilityViolation);
                }
                operand_stack.push(Type::MutableReference(Box::new(ty)));
                Ok(())
            },
            Bytecode::ImmBorrowGlobalGeneric(idx) => {
                operand_stack.pop()?.check_eq(&Type::Address)?;
                let ty = resolver.instantiate_generic_type(*idx as usize, ty_args);
                let a = resolver.abilities(&ty);
                if !a.has_key {
                    return Err(TypeCheckError::AbilityViolation);
                }
                operand_stack.push(Type::Reference(Box::new(ty)));
                Ok(())
            },
            Bytecode::Exists(_) | Bytecode::ExistsGeneric(_) => {
                operand_stack.pop()?.check_eq(&Type::Address)?;
                operand_stack.push(Type::Bool);
                Ok(())
            },
            Bytecode::MoveTo(idx) => {
                let ty = operand_stack.pop()?;
                let signer_ref = operand_stack.pop()?;
                proof {
                    assert(operand_stack@ =~= old(operand_stack)@.take(
                        old(operand_stack)@.len() - 2,
                    ));
                }
                signer_ref.check_eq(&Type::Reference(Box::new(Type::Signer)))?;
                ty.check_eq(&resolver.get_struct_type(*idx as usize))?;
                let a = resolver.abilities(&ty);
                if !a.has_key {
                    return Err(TypeCheckError::AbilityViolation);
                }
                Ok(())
            },
            Bytecode::MoveToGeneric(idx) => {
                let ty = operand_stack.pop()?;
                let signer_ref = operand_stack.pop()?;
                proof {
                    assert(operand_stack@ =~= old(operand_stack)@.take(
                        old(operand_stack)@.len() - 2,
                    ));
                }
                signer_ref.check_eq(&Type::Reference(Box::new(Type::Signer)))?;
                ty.check_eq(&resolver.instantiate_generic_type(*idx as usize, ty_args))?;
                let a = resolver.abilities(&ty);
                if !a.has_key {
                    return Err(TypeCheckError::AbilityViolation);
                }
                Ok(())
            },
            Bytecode::MoveFrom(idx) => {
                operand_stack.pop()?.check_eq(&Type::Address)?;
                let ty = resolver.get_struct_type(*idx as usize);
                let a = resolver.abilities(&ty);
                if !a.has_key {
                    return Err(TypeCheckError::AbilityViolation);
                }
                operand_stack.push(ty);
                Ok(())
            },
            Bytecode::MoveFromGeneric(idx) => {
                operand_stack.pop()?.check_eq(&Type::Address)?;
                let ty = resolver.instantiate_generic_type(*idx as usize, ty_args);
                let a = resolver.abilities(&ty);
                if !a.has_key {
                    return Err(TypeCheckError::AbilityViolation);
                }
                operand_stack.push(ty);
                Ok(())
            },
            Bytecode::FreezeRef => {
                match operand_stack.pop()? {
                    Type::MutableReference(inner) => {
                        operand_stack.push(Type::Reference(inner));
                        Ok(())
                    },
                    _ => Err(TypeCheckError::TypeMismatch),
                }
            },
            Bytecode::Nop => Ok(()),
            Bytecode::Not => {
                operand_stack.pop()?.check_eq(&Type::Bool)?;
                operand_stack.push(Type::Bool);
                Ok(())
            },
            Bytecode::VecPack(idx, num) => {
                let elem_ty = resolver.instantiate_single_type(*idx as usize, ty_args);
                let popped = operand_stack.pop_n(*num)?;
                let eq_check = check_elements_equal(&popped, &elem_ty);
                proof {
                    let s0 = old(operand_stack)@;
                    let elem = spec_single_type(*resolver, *idx as int, ty_args@);
                    let n = s0.len() as int;
                    let m = *num as int;
                    if forall|j: int| 0 <= j < popped@.len() ==> popped@[j] == elem {
                        assert forall|k: int| n - m <= k < n implies s0[k] == elem by {
                            assert(popped@[n - 1 - k] == elem);
                        };
                    } else {
                        let j = choose|j: int| 0 <= j < popped@.len() && popped@[j] != elem;
                        assert(s0[n - 1 - j] != elem);
                    }
                }
                eq_check?;
                operand_stack.push(Type::Vector(Box::new(elem_ty)));
                Ok(())
            },
            Bytecode::VecLen(idx) => {
                let elem_ty = resolver.instantiate_single_type(*idx as usize, ty_args);
                operand_stack.pop()?.check_vec_ref(&elem_ty, false)?;
                operand_stack.push(Type::U64);
                Ok(())
            },
            Bytecode::VecImmBorrow(idx) => {
                let elem_ty = resolver.instantiate_single_type(*idx as usize, ty_args);
                operand_stack.pop()?.check_eq(&Type::U64)?;
                let vec_ref_ty = operand_stack.pop()?;
                proof {
                    assert(operand_stack@ =~= old(operand_stack)@.take(
                        old(operand_stack)@.len() - 2,
                    ));
                }
                let inner_ty = vec_ref_ty.check_vec_ref(&elem_ty, false)?;
                operand_stack.push(Type::Reference(Box::new(inner_ty)));
                Ok(())
            },
            Bytecode::VecMutBorrow(idx) => {
                let elem_ty = resolver.instantiate_single_type(*idx as usize, ty_args);
                operand_stack.pop()?.check_eq(&Type::U64)?;
                let vec_ref_ty = operand_stack.pop()?;
                proof {
                    assert(operand_stack@ =~= old(operand_stack)@.take(
                        old(operand_stack)@.len() - 2,
                    ));
                }
                let inner_ty = vec_ref_ty.check_vec_ref(&elem_ty, true)?;
                operand_stack.push(Type::MutableReference(Box::new(inner_ty)));
                Ok(())
            },
            Bytecode::VecPushBack(idx) => {
                let elem_ty = resolver.instantiate_single_type(*idx as usize, ty_args);
                operand_stack.pop()?.check_eq(&elem_ty)?;
                let vec_ref_ty = operand_stack.pop()?;
                proof {
                    assert(operand_stack@ =~= old(operand_stack)@.take(
                        old(operand_stack)@.len() - 2,
                    ));
                }
                vec_ref_ty.check_vec_ref(&elem_ty, true)?;
                Ok(())
            },
            Bytecode::VecPopBack(idx) => {
                let elem_ty = resolver.instantiate_single_type(*idx as usize, ty_args);
                let inner_ty = operand_stack.pop()?.check_vec_ref(&elem_ty, true)?;
                operand_stack.push(inner_ty);
                Ok(())
            },
            Bytecode::VecUnpack(idx, num) => {
                let elem_ty = resolver.instantiate_single_type(*idx as usize, ty_args);
                let vec_ty = operand_stack.pop()?;
                match vec_ty {
                    Type::Vector(v) => {
                        v.check_eq(&elem_ty)?;
                        push_copies(operand_stack, &elem_ty, *num);
                        proof {
                            let ghost elem = spec_single_type(*resolver, *idx as int, ty_args@);
                            assert(operand_stack@ =~= old(operand_stack)@.drop_last() + Seq::new(
                                *num as nat,
                                |k: int| elem,
                            ));
                        }
                        Ok(())
                    },
                    _ => Err(TypeCheckError::TypeMismatch),
                }
            },
            Bytecode::VecSwap(idx) => {
                let elem_ty = resolver.instantiate_single_type(*idx as usize, ty_args);
                operand_stack.pop()?.check_eq(&Type::U64)?;
                operand_stack.pop()?.check_eq(&Type::U64)?;
                let vec_ref_ty = operand_stack.pop()?;
                proof {
                    assert(operand_stack@ =~= old(operand_stack)@.take(
                        old(operand_stack)@.len() - 3,
                    ));
                }
                vec_ref_ty.check_vec_ref(&elem_ty, true)?;
                Ok(())
            },
        }
    }
}

} // verus!
