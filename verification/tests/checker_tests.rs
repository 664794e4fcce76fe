use paranoid_type_checker::bytecode::Bytecode;
use paranoid_type_checker::checker::ParanoidTypeChecker;
use paranoid_type_checker::errors::TypeCheckError;
use paranoid_type_checker::function::{Function, InstrRet, Locals, ModuleId};
use paranoid_type_checker::oracle::{FieldHandle, FieldInst, Resolver, StructDef, StructInst};
use paranoid_type_checker::stack::TypeStack;
use paranoid_type_checker::types::{AbilitySet, Type, TypeList};

fn abilities(has_copy: bool, has_drop: bool, has_store: bool, has_key: bool) -> AbilitySet {
    AbilitySet { has_copy, has_drop, has_store, has_key }
}

/// A small loaded-module world:
/// - struct 0: a resource with no abilities, one `U64` field;
/// - struct 1: Copy+Drop+Store, fields `[U64, Bool]`;
/// - struct 2: Key only, one field of type `Struct(3)`;
/// - struct 3: Key only (a field type with Key and no Store);
/// - struct 4: Store only;
/// - struct 5: Key only, one field of type `Struct(4)`;
/// - struct 6: Copy+Drop+Store, generic, fields `[TyParam(0), U64]`;
/// - struct 7: cached field count disagrees with its field list;
/// - struct instantiation 0: struct 6 with `[U32]`;
/// - field handle 0: field 1 of struct 1 (a `Bool`);
/// - field handle 1: field 0 of struct 6 (its `TyParam(0)`), with field
///   instantiation 0 binding that parameter to `U32`;
/// - single type 0: `U64`; constant 0: `Address`.
fn world() -> Resolver {
    Resolver {
        structs: vec![
            StructDef {
                abilities: abilities(false, false, false, false),
                field_count: 1,
                fields: vec![Type::U64],
            },
            StructDef {
                abilities: abilities(true, true, true, false),
                field_count: 2,
                fields: vec![Type::U64, Type::Bool],
            },
            StructDef {
                abilities: abilities(false, false, false, true),
                field_count: 1,
                fields: vec![Type::Struct(3)],
            },
            StructDef {
                abilities: abilities(false, false, false, true),
                field_count: 0,
                fields: vec![],
            },
            StructDef {
                abilities: abilities(false, false, true, false),
                field_count: 0,
                fields: vec![],
            },
            StructDef {
                abilities: abilities(false, false, false, true),
                field_count: 1,
                fields: vec![Type::Struct(4)],
            },
            StructDef {
                abilities: abilities(true, true, true, false),
                field_count: 2,
                fields: vec![Type::TyParam(0), Type::U64],
            },
            StructDef {
                abilities: abilities(true, true, true, false),
                field_count: 2,
                fields: vec![Type::U64],
            },
        ],
        struct_instantiations: vec![StructInst {
            def: 6,
            field_count: 2,
            instantiation: vec![Type::U32],
        }],
        field_handles: vec![
            FieldHandle { owner: 1, field: 1 },
            FieldHandle { owner: 6, field: 0 },
        ],
        field_instantiations: vec![FieldInst { handle: 1, instantiation: vec![Type::U32] }],
        single_types: vec![Type::U64],
        constant_types: vec![Type::Address],
    }
}

fn stack_of(types: Vec<Type>) -> TypeStack {
    let mut stack = TypeStack::new();
    for ty in types {
        stack.push(ty);
    }
    stack
}

fn post(
    stack: &mut TypeStack,
    local_tys: &Vec<Type>,
    resolver: &Resolver,
    instr: Bytecode,
) -> Result<(), TypeCheckError> {
    let ty_args: Vec<Type> = vec![];
    ParanoidTypeChecker::post_execution_type_stack_transition(
        stack, local_tys, &ty_args, resolver, &instr,
    )
}

fn drain(stack: &mut TypeStack) -> Vec<Type> {
    let mut out = Vec::new();
    while stack.len() > 0 {
        out.push(stack.pop().unwrap());
    }
    out.reverse();
    out
}

#[test]
fn copy_loc_without_copy_is_rejected() {
    let resolver = world();
    let local_tys = vec![Type::Struct(0)];
    let mut stack = TypeStack::new();
    let res = post(&mut stack, &local_tys, &resolver, Bytecode::CopyLoc(0));
    assert_eq!(res, Err(TypeCheckError::AbilityViolation));
}

#[test]
fn copy_loc_with_copy_pushes_the_slot_type() {
    let resolver = world();
    let local_tys = vec![Type::U64];
    let mut stack = TypeStack::new();
    post(&mut stack, &local_tys, &resolver, Bytecode::CopyLoc(0)).unwrap();
    assert_eq!(drain(&mut stack), vec![Type::U64]);
}

#[test]
fn move_loc_needs_no_ability() {
    let resolver = world();
    let local_tys = vec![Type::Struct(0)];
    let mut stack = TypeStack::new();
    post(&mut stack, &local_tys, &resolver, Bytecode::MoveLoc(0)).unwrap();
    assert_eq!(drain(&mut stack), vec![Type::Struct(0)]);
}

#[test]
fn st_loc_over_live_non_drop_value_is_rejected() {
    let resolver = world();
    let local_tys = vec![Type::Struct(0)];
    let locals = Locals::new(vec![true]);
    let ty_args: Vec<Type> = vec![];
    let mut stack = stack_of(vec![Type::Struct(0)]);
    let res = ParanoidTypeChecker::pre_execution_type_stack_transition(
        &mut stack,
        &local_tys,
        &locals,
        &ty_args,
        &resolver,
        &Bytecode::StLoc(0),
    );
    assert_eq!(res, Err(TypeCheckError::AbilityViolation));
}

#[test]
fn st_loc_into_moved_out_slot_succeeds() {
    let resolver = world();
    let local_tys = vec![Type::Struct(0)];
    let locals = Locals::new(vec![false]);
    let ty_args: Vec<Type> = vec![];
    let mut stack = stack_of(vec![Type::Struct(0)]);
    ParanoidTypeChecker::pre_execution_type_stack_transition(
        &mut stack,
        &local_tys,
        &locals,
        &ty_args,
        &resolver,
        &Bytecode::StLoc(0),
    )
    .unwrap();
    assert_eq!(stack.len(), 0);
}

#[test]
fn ret_with_live_non_drop_local_is_rejected() {
    let resolver = world();
    let local_tys = vec![Type::U64, Type::Struct(0)];
    let locals = Locals::new(vec![true, true]);
    let ty_args: Vec<Type> = vec![];
    let mut stack = TypeStack::new();
    let res = ParanoidTypeChecker::pre_execution_type_stack_transition(
        &mut stack,
        &local_tys,
        &locals,
        &ty_args,
        &resolver,
        &Bytecode::Ret,
    );
    assert_eq!(res, Err(TypeCheckError::AbilityViolation));
}

#[test]
fn ret_with_moved_out_non_drop_local_succeeds() {
    let resolver = world();
    let local_tys = vec![Type::U64, Type::Struct(0)];
    let locals = Locals::new(vec![true, false]);
    let ty_args: Vec<Type> = vec![];
    let mut stack = TypeStack::new();
    ParanoidTypeChecker::pre_execution_type_stack_transition(
        &mut stack,
        &local_tys,
        &locals,
        &ty_args,
        &resolver,
        &Bytecode::Ret,
    )
    .unwrap();
}

#[test]
fn add_with_mismatched_operands_is_rejected() {
    let resolver = world();
    let local_tys = vec![];
    let mut stack = stack_of(vec![Type::U32, Type::U64]);
    let res = post(&mut stack, &local_tys, &resolver, Bytecode::Add);
    assert_eq!(res, Err(TypeCheckError::TypeMismatch));
}

#[test]
fn add_with_equal_operands_pushes_the_type() {
    let resolver = world();
    let local_tys = vec![];
    let mut stack = stack_of(vec![Type::U64, Type::U64]);
    post(&mut stack, &local_tys, &resolver, Bytecode::Add).unwrap();
    assert_eq!(drain(&mut stack), vec![Type::U64]);
}

#[test]
fn comparison_pushes_bool() {
    let resolver = world();
    let local_tys = vec![];
    let mut stack = stack_of(vec![Type::U8, Type::U8]);
    post(&mut stack, &local_tys, &resolver, Bytecode::Lt).unwrap();
    assert_eq!(drain(&mut stack), vec![Type::Bool]);
}

#[test]
fn equality_requires_drop() {
    let resolver = world();
    let local_tys = vec![];
    let mut stack = stack_of(vec![Type::Struct(0), Type::Struct(0)]);
    let res = post(&mut stack, &local_tys, &resolver, Bytecode::Eq);
    assert_eq!(res, Err(TypeCheckError::AbilityViolation));
}

#[test]
fn pack_key_struct_with_key_only_field_is_rejected() {
    let resolver = world();
    let local_tys = vec![];
    let mut stack = stack_of(vec![Type::Struct(3)]);
    let res = post(&mut stack, &local_tys, &resolver, Bytecode::Pack(2));
    assert_eq!(res, Err(TypeCheckError::AbilityViolation));
}

#[test]
fn pack_key_struct_with_store_field_succeeds() {
    let resolver = world();
    let local_tys = vec![];
    let mut stack = stack_of(vec![Type::Struct(4)]);
    post(&mut stack, &local_tys, &resolver, Bytecode::Pack(5)).unwrap();
    assert_eq!(drain(&mut stack), vec![Type::Struct(5)]);
}

#[test]
fn pack_with_wrong_field_type_is_rejected() {
    let resolver = world();
    let local_tys = vec![];
    let mut stack = stack_of(vec![Type::Bool]);
    let res = post(&mut stack, &local_tys, &resolver, Bytecode::Pack(0));
    assert_eq!(res, Err(TypeCheckError::TypeMismatch));
}

#[test]
fn pack_with_divergent_cached_count_is_rejected() {
    let resolver = world();
    let local_tys = vec![];
    let mut stack = stack_of(vec![Type::U64, Type::U64]);
    let res = post(&mut stack, &local_tys, &resolver, Bytecode::Pack(7));
    assert_eq!(res, Err(TypeCheckError::ArgCountMismatch));
}

#[test]
fn pack_then_unpack_restores_the_field_types() {
    let resolver = world();
    let local_tys = vec![];
    let mut stack = stack_of(vec![Type::Address, Type::U64, Type::Bool]);
    post(&mut stack, &local_tys, &resolver, Bytecode::Pack(1)).unwrap();
    assert_eq!(stack.len(), 2);
    post(&mut stack, &local_tys, &resolver, Bytecode::Unpack(1)).unwrap();
    assert_eq!(drain(&mut stack), vec![Type::Address, Type::U64, Type::Bool]);
}

#[test]
fn generic_pack_then_unpack_restores_the_instantiated_field_types() {
    let resolver = world();
    let local_tys = vec![];
    let mut stack = stack_of(vec![Type::U32, Type::U64]);
    post(&mut stack, &local_tys, &resolver, Bytecode::PackGeneric(0)).unwrap();
    assert_eq!(stack.len(), 1);
    post(&mut stack, &local_tys, &resolver, Bytecode::UnpackGeneric(0)).unwrap();
    assert_eq!(drain(&mut stack), vec![Type::U32, Type::U64]);
}

#[test]
fn generic_pack_pushes_the_instantiated_struct_type() {
    let resolver = world();
    let local_tys = vec![];
    let mut stack = stack_of(vec![Type::U32, Type::U64]);
    post(&mut stack, &local_tys, &resolver, Bytecode::PackGeneric(0)).unwrap();
    let expected = Type::StructInstantiation(
        6,
        TypeList::Cons(Box::new(Type::U32), Box::new(TypeList::Nil)),
    );
    assert_eq!(drain(&mut stack), vec![expected]);
}

#[test]
fn control_flow_in_the_post_table_is_malformed() {
    let resolver = world();
    let local_tys = vec![];
    let mut stack = TypeStack::new();
    assert_eq!(
        post(&mut stack, &local_tys, &resolver, Bytecode::Branch(0)),
        Err(TypeCheckError::MalformedControlFlow)
    );
    assert_eq!(
        post(&mut stack, &local_tys, &resolver, Bytecode::Abort),
        Err(TypeCheckError::MalformedControlFlow)
    );
}

#[test]
fn pop_on_an_empty_stack_is_an_imbalance() {
    let resolver = world();
    let local_tys = vec![];
    let mut stack = TypeStack::new();
    let res = post(&mut stack, &local_tys, &resolver, Bytecode::Pop);
    assert_eq!(res, Err(TypeCheckError::StackImbalance));
}

#[test]
fn pop_requires_drop() {
    let resolver = world();
    let local_tys = vec![];
    let mut stack = stack_of(vec![Type::Struct(0)]);
    let res = post(&mut stack, &local_tys, &resolver, Bytecode::Pop);
    assert_eq!(res, Err(TypeCheckError::AbilityViolation));
}

#[test]
fn constant_load_pushes_the_declared_constant_type() {
    let resolver = world();
    let local_tys = vec![];
    let mut stack = TypeStack::new();
    post(&mut stack, &local_tys, &resolver, Bytecode::LdU8(7)).unwrap();
    post(&mut stack, &local_tys, &resolver, Bytecode::LdTrue).unwrap();
    post(&mut stack, &local_tys, &resolver, Bytecode::LdConst(0)).unwrap();
    assert_eq!(drain(&mut stack), vec![Type::U8, Type::Bool, Type::Address]);
}

#[test]
fn cast_replaces_the_top_with_the_target_scalar() {
    let resolver = world();
    let local_tys = vec![];
    let mut stack = stack_of(vec![Type::Bool]);
    post(&mut stack, &local_tys, &resolver, Bytecode::CastU32).unwrap();
    assert_eq!(drain(&mut stack), vec![Type::U32]);
}

#[test]
fn freeze_ref_turns_a_mutable_reference_immutable() {
    let resolver = world();
    let local_tys = vec![];
    let mut stack = stack_of(vec![Type::MutableReference(Box::new(Type::U64))]);
    post(&mut stack, &local_tys, &resolver, Bytecode::FreezeRef).unwrap();
    assert_eq!(drain(&mut stack), vec![Type::Reference(Box::new(Type::U64))]);
}

#[test]
fn freeze_ref_rejects_a_value() {
    let resolver = world();
    let local_tys = vec![];
    let mut stack = stack_of(vec![Type::U64]);
    let res = post(&mut stack, &local_tys, &resolver, Bytecode::FreezeRef);
    assert_eq!(res, Err(TypeCheckError::TypeMismatch));
}

#[test]
fn read_ref_requires_copy_of_the_pointee() {
    let resolver = world();
    let local_tys = vec![];
    let mut stack = stack_of(vec![Type::Reference(Box::new(Type::Struct(0)))]);
    let res = post(&mut stack, &local_tys, &resolver, Bytecode::ReadRef);
    assert_eq!(res, Err(TypeCheckError::AbilityViolation));
    let mut stack = stack_of(vec![Type::Reference(Box::new(Type::U64))]);
    post(&mut stack, &local_tys, &resolver, Bytecode::ReadRef).unwrap();
    assert_eq!(drain(&mut stack), vec![Type::U64]);
}

#[test]
fn write_ref_checks_type_and_drop() {
    let resolver = world();
    let local_tys = vec![];
    let mut stack = stack_of(vec![
        Type::U64,
        Type::MutableReference(Box::new(Type::U64)),
    ]);
    post(&mut stack, &local_tys, &resolver, Bytecode::WriteRef).unwrap();
    assert_eq!(stack.len(), 0);
    let mut stack = stack_of(vec![
        Type::Bool,
        Type::MutableReference(Box::new(Type::U64)),
    ]);
    let res = post(&mut stack, &local_tys, &resolver, Bytecode::WriteRef);
    assert_eq!(res, Err(TypeCheckError::TypeMismatch));
}

#[test]
fn borrow_field_rewrites_a_struct_reference_to_a_field_reference() {
    let resolver = world();
    let local_tys = vec![];
    let mut stack = stack_of(vec![Type::Reference(Box::new(Type::Struct(1)))]);
    post(&mut stack, &local_tys, &resolver, Bytecode::ImmBorrowField(0)).unwrap();
    assert_eq!(drain(&mut stack), vec![Type::Reference(Box::new(Type::Bool))]);
}

#[test]
fn borrow_global_requires_key() {
    let resolver = world();
    let local_tys = vec![];
    let mut stack = stack_of(vec![Type::Address]);
    let res = post(&mut stack, &local_tys, &resolver, Bytecode::MutBorrowGlobal(0));
    assert_eq!(res, Err(TypeCheckError::AbilityViolation));
    let mut stack = stack_of(vec![Type::Address]);
    post(&mut stack, &local_tys, &resolver, Bytecode::ImmBorrowGlobal(5)).unwrap();
    assert_eq!(
        drain(&mut stack),
        vec![Type::Reference(Box::new(Type::Struct(5)))]
    );
}

#[test]
fn move_from_pops_an_address_and_pushes_the_resource() {
    let resolver = world();
    let local_tys = vec![];
    let mut stack = stack_of(vec![Type::Address]);
    post(&mut stack, &local_tys, &resolver, Bytecode::MoveFrom(5)).unwrap();
    assert_eq!(drain(&mut stack), vec![Type::Struct(5)]);
}

#[test]
fn exists_pushes_bool_without_ability_requirements() {
    let resolver = world();
    let local_tys = vec![];
    let mut stack = stack_of(vec![Type::Address]);
    post(&mut stack, &local_tys, &resolver, Bytecode::Exists(0)).unwrap();
    assert_eq!(drain(&mut stack), vec![Type::Bool]);
}

#[test]
fn vec_pack_and_unpack_round_trip() {
    let resolver = world();
    let local_tys = vec![];
    let mut stack = stack_of(vec![Type::U64, Type::U64]);
    post(&mut stack, &local_tys, &resolver, Bytecode::VecPack(0, 2)).unwrap();
    assert_eq!(stack.len(), 1);
    post(&mut stack, &local_tys, &resolver, Bytecode::VecUnpack(0, 2)).unwrap();
    assert_eq!(drain(&mut stack), vec![Type::U64, Type::U64]);
}

#[test]
fn vec_pack_with_a_foreign_element_is_rejected() {
    let resolver = world();
    let local_tys = vec![];
    let mut stack = stack_of(vec![Type::U64, Type::Bool]);
    let res = post(&mut stack, &local_tys, &resolver, Bytecode::VecPack(0, 2));
    assert_eq!(res, Err(TypeCheckError::TypeMismatch));
}

#[test]
fn vec_mut_borrow_needs_a_mutable_vector_reference() {
    let resolver = world();
    let local_tys = vec![];
    let vec_ty = Type::Vector(Box::new(Type::U64));
    let mut stack = stack_of(vec![Type::Reference(Box::new(vec_ty)), Type::U64]);
    let res = post(&mut stack, &local_tys, &resolver, Bytecode::VecMutBorrow(0));
    assert_eq!(res, Err(TypeCheckError::TypeMismatch));
    let vec_ty = Type::Vector(Box::new(Type::U64));
    let mut stack = stack_of(vec![Type::MutableReference(Box::new(vec_ty)), Type::U64]);
    post(&mut stack, &local_tys, &resolver, Bytecode::VecMutBorrow(0)).unwrap();
    assert_eq!(
        drain(&mut stack),
        vec![Type::MutableReference(Box::new(Type::U64))]
    );
}

fn plain_function(is_native: bool, is_friend_or_private: bool, address: u128) -> Function {
    Function {
        parameters: vec![],
        return_types: vec![],
        locals: vec![],
        is_native,
        is_friend_or_private,
        module: Some(ModuleId { address, name: 0 }),
    }
}

#[test]
fn private_cross_module_call_is_rejected() {
    let caller = plain_function(false, false, 0xB);
    let callee = plain_function(false, true, 0xA);
    let ty_args: Vec<Type> = vec![];
    let mut stack = TypeStack::new();
    let res = ParanoidTypeChecker::pre_hook_fn(&mut stack, &callee, &ty_args, &caller);
    assert_eq!(res, Err(TypeCheckError::VisibilityViolation));
}

#[test]
fn private_same_module_call_succeeds() {
    let caller = plain_function(false, false, 0xA);
    let callee = plain_function(false, true, 0xA);
    let ty_args: Vec<Type> = vec![];
    let mut stack = TypeStack::new();
    ParanoidTypeChecker::pre_hook_fn(&mut stack, &callee, &ty_args, &caller).unwrap();
}

#[test]
fn private_call_with_unknown_module_is_rejected() {
    let caller = Function { module: None, ..plain_function(false, false, 0xA) };
    let callee = plain_function(false, true, 0xA);
    assert_eq!(
        ParanoidTypeChecker::check_friend_or_private_call(&caller, &callee),
        Err(TypeCheckError::VisibilityViolation)
    );
}

#[test]
fn generic_parameter_is_checked_under_the_substitution() {
    let callee = Function {
        parameters: vec![Type::TyParam(0)],
        return_types: vec![],
        locals: vec![Type::TyParam(0)],
        is_native: true,
        is_friend_or_private: false,
        module: Some(ModuleId { address: 0xA, name: 0 }),
    };
    let mut stack = stack_of(vec![Type::U64]);
    let ty_args = vec![Type::U64];
    ParanoidTypeChecker::check_parameter_types(&mut stack, &callee, &ty_args).unwrap();

    let mut stack = stack_of(vec![Type::U64]);
    let ty_args = vec![Type::Bool];
    let res = ParanoidTypeChecker::check_parameter_types(&mut stack, &callee, &ty_args);
    assert_eq!(res, Err(TypeCheckError::TypeMismatch));
}

#[test]
fn call_site_pops_arguments_for_the_callee_locals() {
    let caller = plain_function(false, false, 0xA);
    let callee = Function {
        parameters: vec![Type::U64, Type::Bool],
        return_types: vec![],
        locals: vec![Type::U64, Type::Bool, Type::Address],
        is_native: false,
        is_friend_or_private: false,
        module: Some(ModuleId { address: 0xA, name: 0 }),
    };
    let ty_args: Vec<Type> = vec![];
    let mut stack = stack_of(vec![Type::U128, Type::U64, Type::Bool]);
    ParanoidTypeChecker::pre_hook_fn(&mut stack, &callee, &ty_args, &caller).unwrap();
    assert_eq!(drain(&mut stack), vec![Type::U128]);
}

#[test]
fn native_call_site_pushes_the_return_types() {
    let caller = plain_function(false, false, 0xA);
    let callee = Function {
        parameters: vec![Type::U64],
        return_types: vec![Type::Bool],
        locals: vec![Type::U64],
        is_native: true,
        is_friend_or_private: false,
        module: Some(ModuleId { address: 0xA, name: 0 }),
    };
    let ty_args: Vec<Type> = vec![];
    let mut stack = stack_of(vec![Type::U64]);
    ParanoidTypeChecker::pre_hook_fn(&mut stack, &callee, &ty_args, &caller).unwrap();
    assert_eq!(drain(&mut stack), vec![Type::Bool]);
}

#[test]
fn native_entrypoint_round_trips_its_own_parameters() {
    let function = Function {
        parameters: vec![Type::TyParam(0), Type::Bool],
        return_types: vec![Type::TyParam(0)],
        locals: vec![Type::TyParam(0), Type::Bool],
        is_native: true,
        is_friend_or_private: false,
        module: Some(ModuleId { address: 0xA, name: 0 }),
    };
    let ty_args = vec![Type::U128];
    let mut stack = TypeStack::new();
    ParanoidTypeChecker::pre_hook_entrypoint(&mut stack, &function, &ty_args).unwrap();
    assert_eq!(drain(&mut stack), vec![Type::U128]);
}

#[test]
fn bytecode_entrypoint_is_not_checked_here() {
    let function = plain_function(false, false, 0xA);
    let ty_args: Vec<Type> = vec![];
    let mut stack = TypeStack::new();
    ParanoidTypeChecker::pre_hook_entrypoint(&mut stack, &function, &ty_args).unwrap();
    assert_eq!(stack.len(), 0);
}

#[test]
fn substitution_rewrites_type_parameters() {
    let declared = Type::Vector(Box::new(Type::TyParam(0)));
    let ty_args = vec![Type::U128];
    assert_eq!(declared.subst(&ty_args), Type::Vector(Box::new(Type::U128)));
    let ty_args = vec![Type::Bool];
    assert_eq!(declared.subst(&ty_args), Type::Vector(Box::new(Type::Bool)));
}

#[test]
fn get_local_types_substitutes_every_slot() {
    let function = Function {
        parameters: vec![Type::TyParam(0)],
        return_types: vec![],
        locals: vec![Type::TyParam(0), Type::U8],
        is_native: false,
        is_friend_or_private: false,
        module: None,
    };
    let ty_args = vec![Type::Address];
    let locals = ParanoidTypeChecker::get_local_types(&function, &ty_args);
    assert_eq!(locals, vec![Type::Address, Type::U8]);
}

#[test]
fn pre_instr_cross_checks_the_real_stack_depth() {
    let resolver = world();
    let local_tys = vec![];
    let locals = Locals::new(vec![]);
    let ty_args: Vec<Type> = vec![];
    let mut stack = stack_of(vec![Type::U64]);
    let res = ParanoidTypeChecker::pre_instr(
        &mut stack,
        &local_tys,
        &locals,
        &ty_args,
        &resolver,
        &Bytecode::Nop,
        0,
    );
    assert_eq!(res, Err(TypeCheckError::StackImbalance));
    ParanoidTypeChecker::pre_instr(
        &mut stack,
        &local_tys,
        &locals,
        &ty_args,
        &resolver,
        &Bytecode::Nop,
        1,
    )
    .unwrap();
}

#[test]
fn post_instr_runs_only_after_a_local_completion() {
    let resolver = world();
    let local_tys = vec![];
    let ty_args: Vec<Type> = vec![];
    let mut stack = TypeStack::new();
    ParanoidTypeChecker::post_instr(
        &mut stack,
        &local_tys,
        &ty_args,
        &resolver,
        &Bytecode::LdU64(1),
        &InstrRet::Completed,
        1,
    )
    .unwrap();
    assert_eq!(stack.len(), 1);
    ParanoidTypeChecker::post_instr(
        &mut stack,
        &local_tys,
        &ty_args,
        &resolver,
        &Bytecode::Branch(0),
        &InstrRet::Branch,
        1,
    )
    .unwrap();
    assert_eq!(stack.len(), 1);
}

#[test]
fn post_instr_rejects_a_depth_divergence() {
    let resolver = world();
    let local_tys = vec![];
    let ty_args: Vec<Type> = vec![];
    let mut stack = TypeStack::new();
    let res = ParanoidTypeChecker::post_instr(
        &mut stack,
        &local_tys,
        &ty_args,
        &resolver,
        &Bytecode::LdU64(1),
        &InstrRet::Completed,
        5,
    );
    assert_eq!(res, Err(TypeCheckError::StackImbalance));
}

#[test]
fn shift_keeps_the_value_type() {
    let resolver = world();
    let local_tys = vec![];
    let mut stack = stack_of(vec![Type::U128, Type::U8]);
    post(&mut stack, &local_tys, &resolver, Bytecode::Shl).unwrap();
    assert_eq!(drain(&mut stack), vec![Type::U128]);
}

#[test]
fn abilities_of_a_vector_follow_its_element() {
    let resolver = world();
    let copyable = resolver.abilities(&Type::Vector(Box::new(Type::U64)));
    assert!(copyable.has_copy && copyable.has_drop && copyable.has_store && !copyable.has_key);
    let resource = resolver.abilities(&Type::Vector(Box::new(Type::Struct(0))));
    assert!(!resource.has_copy && !resource.has_drop && !resource.has_store && !resource.has_key);
}

#[test]
fn abilities_of_an_instantiation_meet_its_arguments() {
    let resolver = world();
    let copyable = Type::StructInstantiation(
        6,
        TypeList::Cons(Box::new(Type::U64), Box::new(TypeList::Nil)),
    );
    let a = resolver.abilities(&copyable);
    assert!(a.has_copy && a.has_drop && a.has_store);
    let holding_resource = Type::StructInstantiation(
        6,
        TypeList::Cons(Box::new(Type::Struct(0)), Box::new(TypeList::Nil)),
    );
    let a = resolver.abilities(&holding_resource);
    assert!(!a.has_copy && !a.has_drop && !a.has_store && !a.has_key);
}

#[test]
fn generic_borrow_field_resolves_the_instantiated_field_type() {
    let resolver = world();
    let local_tys = vec![];
    let owner = Type::StructInstantiation(
        6,
        TypeList::Cons(Box::new(Type::U32), Box::new(TypeList::Nil)),
    );
    let mut stack = stack_of(vec![Type::Reference(Box::new(owner))]);
    post(&mut stack, &local_tys, &resolver, Bytecode::ImmBorrowFieldGeneric(0)).unwrap();
    assert_eq!(drain(&mut stack), vec![Type::Reference(Box::new(Type::U32))]);
}

#[test]
fn generic_mut_borrow_field_demands_a_mutable_owner_reference() {
    let resolver = world();
    let local_tys = vec![];
    let owner = Type::StructInstantiation(
        6,
        TypeList::Cons(Box::new(Type::U32), Box::new(TypeList::Nil)),
    );
    let mut stack = stack_of(vec![Type::Reference(Box::new(owner))]);
    let res = post(&mut stack, &local_tys, &resolver, Bytecode::MutBorrowFieldGeneric(0));
    assert_eq!(res, Err(TypeCheckError::TypeMismatch));
}

#[test]
fn borrow_loc_pushes_a_reference_to_the_slot_type() {
    let resolver = world();
    let local_tys = vec![Type::U64];
    let mut stack = TypeStack::new();
    post(&mut stack, &local_tys, &resolver, Bytecode::MutBorrowLoc(0)).unwrap();
    post(&mut stack, &local_tys, &resolver, Bytecode::ImmBorrowLoc(0)).unwrap();
    assert_eq!(
        drain(&mut stack),
        vec![
            Type::MutableReference(Box::new(Type::U64)),
            Type::Reference(Box::new(Type::U64)),
        ]
    );
}

#[test]
fn move_to_consumes_the_resource_and_the_signer_reference() {
    let resolver = world();
    let local_tys = vec![];
    let mut stack = stack_of(vec![
        Type::Reference(Box::new(Type::Signer)),
        Type::Struct(5),
    ]);
    post(&mut stack, &local_tys, &resolver, Bytecode::MoveTo(5)).unwrap();
    assert_eq!(stack.len(), 0);
}

#[test]
fn conditional_branch_pops_its_condition_in_the_pre_phase() {
    let resolver = world();
    let local_tys = vec![];
    let locals = Locals::new(vec![]);
    let ty_args: Vec<Type> = vec![];
    let mut stack = stack_of(vec![Type::Bool]);
    ParanoidTypeChecker::pre_execution_type_stack_transition(
        &mut stack,
        &local_tys,
        &locals,
        &ty_args,
        &resolver,
        &Bytecode::BrTrue(4),
    )
    .unwrap();
    assert_eq!(stack.len(), 0);
}

#[test]
fn vec_len_and_push_and_pop_follow_the_element_type() {
    let resolver = world();
    let local_tys = vec![];
    let vec_ref = Type::MutableReference(Box::new(Type::Vector(Box::new(Type::U64))));
    let mut stack = stack_of(vec![vec_ref, Type::U64]);
    post(&mut stack, &local_tys, &resolver, Bytecode::VecPushBack(0)).unwrap();
    assert_eq!(stack.len(), 0);
    let vec_ref = Type::MutableReference(Box::new(Type::Vector(Box::new(Type::U64))));
    let mut stack = stack_of(vec![vec_ref]);
    post(&mut stack, &local_tys, &resolver, Bytecode::VecPopBack(0)).unwrap();
    assert_eq!(drain(&mut stack), vec![Type::U64]);
    let vec_ref = Type::Reference(Box::new(Type::Vector(Box::new(Type::U64))));
    let mut stack = stack_of(vec![vec_ref]);
    post(&mut stack, &local_tys, &resolver, Bytecode::VecLen(0)).unwrap();
    assert_eq!(drain(&mut stack), vec![Type::U64]);
}

#[test]
fn not_requires_and_returns_bool() {
    let resolver = world();
    let local_tys = vec![];
    let mut stack = stack_of(vec![Type::U8]);
    let res = post(&mut stack, &local_tys, &resolver, Bytecode::Not);
    assert_eq!(res, Err(TypeCheckError::TypeMismatch));
    let mut stack = stack_of(vec![Type::Bool]);
    post(&mut stack, &local_tys, &resolver, Bytecode::Not).unwrap();
    assert_eq!(drain(&mut stack), vec![Type::Bool]);
}
