use vstd::prelude::*;

use crate::types::{
    clone_types, list_of, spec_subst, spec_subst_list, subst_types, types_to_list, AbilitySet,
    Type, TypeList,
};

verus! {

/// The loaded metadata of one struct declaration: its declared ability set,
/// its declared field types (in declaration order, possibly containing
/// `TyParam` placeholders of the struct's own type parameters), and the
/// loader's cached field count. The count is cached separately from the field
/// list on purpose: the packing rule cross-checks the two, so a loader defect
/// that lets them diverge is caught at run time.
pub struct StructDef {
    pub abilities: AbilitySet,
    pub field_count: usize,
    pub fields: Vec<Type>,
}

/// A generic struct instantiation handle: which struct it instantiates, the
/// type arguments of the instantiation (possibly containing `TyParam`
/// placeholders of the enclosing function's type parameters), and the cached
/// field count.
pub struct StructInst {
    pub def: usize,
    pub field_count: usize,
    pub instantiation: Vec<Type>,
}

/// A field handle: which struct owns the field, and the field's position in
/// the owner's declaration order.
pub struct FieldHandle {
    pub owner: usize,
    pub field: usize,
}

/// A generic field access handle: the underlying field handle and the type
/// arguments of the owner's instantiation.
pub struct FieldInst {
    pub handle: usize,
    pub instantiation: Vec<Type>,
}

/// The ability and substitution oracle: a read-only query surface over loaded
/// module metadata, scoped to the module-linking context of the function
/// being checked. The interpreter's loader populates these tables once per
/// loaded module set; the checker only reads them.
pub struct Resolver {
    pub structs: Vec<StructDef>,
    pub struct_instantiations: Vec<StructInst>,
    pub field_handles: Vec<FieldHandle>,
    pub field_instantiations: Vec<FieldInst>,
    pub single_types: Vec<Type>,
    pub constant_types: Vec<Type>,
}

/// Intersection of two ability sets.
pub open spec fn spec_intersect(a: AbilitySet, b: AbilitySet) -> AbilitySet {
    AbilitySet {
        has_copy: a.has_copy && b.has_copy,
        has_drop: a.has_drop && b.has_drop,
        has_store: a.has_store && b.has_store,
        has_key: a.has_key && b.has_key,
    }
}

/// The pointwise meet of the abilities of a list of type arguments: a
/// capability is in the meet exactly when every argument has it.
pub open spec fn spec_list_ability_meet(l: TypeList, r: Resolver) -> AbilitySet
    decreases l,
{
    match l {
        TypeList::Nil => AbilitySet {
            has_copy: true,
            has_drop: true,
            has_store: true,
            has_key: true,
        },
        TypeList::Cons(head, tail) => spec_intersect(
            spec_abilities(*head, r),
            spec_list_ability_meet(*tail, r),
        ),
    }
}

/// The ability set of a type under the loaded metadata `r`.
///
/// Primitive scalars and addresses are Copy + Drop + Store; a signer is Drop
/// only; references are Copy + Drop; a vector has Copy, Drop and Store
/// exactly where its element type does, and never Key. A plain struct has its
/// declared abilities. A generic instantiation keeps a declared Copy, Drop or
/// Store only when every type argument has it too, and keeps a declared Key
/// only when every type argument has Store. A struct handle outside the
/// loaded table and a leftover type parameter have no abilities.
pub open spec fn spec_abilities(t: Type, r: Resolver) -> AbilitySet
    decreases t,
{
    match t {
        Type::Signer => AbilitySet::signer(),
        Type::Vector(inner) => {
            let a = spec_abilities(*inner, r);
            AbilitySet {
                has_copy: a.has_copy,
                has_drop: a.has_drop,
                has_store: a.has_store,
                has_key: false,
            }
        },
        Type::Reference(_) => AbilitySet::references(),
        Type::MutableReference(_) => AbilitySet::references(),
        Type::Struct(idx) => if idx < r.structs@.len() {
            r.structs@[idx as int].abilities
        } else {
            AbilitySet::none()
        },
        Type::StructInstantiation(idx, tys) => if idx < r.structs@.len() {
            let declared = r.structs@[idx as int].abilities;
            let meet = spec_list_ability_meet(tys, r);
            AbilitySet {
                has_copy: declared.has_copy && meet.has_copy,
                has_drop: declared.has_drop && meet.has_drop,
                has_store: declared.has_store && meet.has_store,
                has_key: declared.has_key && meet.has_store,
            }
        } else {
            AbilitySet::none()
        },
        Type::TyParam(_) => AbilitySet::none(),
        _ => AbilitySet::primitives(),
    }
}

/// The declared type of the field behind field handle `fh`.
pub open spec fn spec_field_type(r: Resolver, fh: int) -> Type {
    r.structs@[r.field_handles@[fh].owner as int].fields@[r.field_handles@[fh].field as int]
}

/// A list of declared type arguments, substituted with the current frame's.
pub open spec fn spec_inst_types(inst: Seq<Type>, ty_args: Seq<Type>) -> Seq<Type> {
    inst.map_values(|t: Type| spec_subst(t, ty_args))
}

/// The fully instantiated type of the struct instantiation at `idx` under
/// the frame's type arguments.
pub open spec fn spec_generic_struct_type(r: Resolver, idx: int, ty_args: Seq<Type>) -> Type {
    Type::StructInstantiation(
        r.struct_instantiations@[idx].def,
        list_of(spec_inst_types(r.struct_instantiations@[idx].instantiation@, ty_args)),
    )
}

/// The instantiated field types of the struct instantiation at `idx` under
/// the frame's type arguments, in declaration order.
pub open spec fn spec_generic_struct_fields(r: Resolver, idx: int, ty_args: Seq<Type>) -> Seq<
    Type,
> {
    r.structs@[r.struct_instantiations@[idx].def as int].fields@.map_values(
        |f: Type|
            spec_subst(
                f,
                spec_inst_types(r.struct_instantiations@[idx].instantiation@, ty_args),
            ),
    )
}

/// The instantiated type of the struct owning the field behind the generic
/// field access at `idx`.
pub open spec fn spec_generic_field_owner(r: Resolver, idx: int, ty_args: Seq<Type>) -> Type {
    Type::StructInstantiation(
        r.field_handles@[r.field_instantiations@[idx].handle as int].owner,
        list_of(spec_inst_types(r.field_instantiations@[idx].instantiation@, ty_args)),
    )
}

/// The instantiated type of the field behind the generic field access at
/// `idx`.
pub open spec fn spec_generic_field_type(r: Resolver, idx: int, ty_args: Seq<Type>) -> Type {
    spec_subst(
        spec_field_type(r, r.field_instantiations@[idx].handle as int),
        spec_inst_types(r.field_instantiations@[idx].instantiation@, ty_args),
    )
}

/// The instantiated element type behind the signature handle at `si`, for
/// the vector instructions.
pub open spec fn spec_single_type(r: Resolver, si: int, ty_args: Seq<Type>) -> Type {
    spec_subst(r.single_types@[si], ty_args)
}

impl Resolver {
    /// Cross-table index bounds: every handle stored in one table points into
    /// the table it refers to. The loader establishes this when it populates
    /// the tables.
    pub open spec fn wf(self) -> bool {
        &&& forall|h: int|
            0 <= h < self.field_handles@.len() ==> {
                &&& (#[trigger] self.field_handles@[h]).owner < self.structs@.len()
                &&& self.field_handles@[h].field < self.structs@[self.field_handles@[h].owner as int].fields@.len()
            }
        &&& forall|j: int|
            0 <= j < self.field_instantiations@.len() ==> (
            #[trigger] self.field_instantiations@[j]).handle < self.field_handles@.len()
        &&& forall|j: int|
            0 <= j < self.struct_instantiations@.len() ==> (
            #[trigger] self.struct_instantiations@[j]).def < self.structs@.len()
    }

    /// Pointwise ability meet over a list of type arguments; see
    /// [`spec_list_ability_meet`].
    fn list_ability_meet(&self, l: &TypeList) -> (r: AbilitySet)
        ensures
            r == spec_list_ability_meet(*l, *self),
        decreases *l,
    {
        match l {
            TypeList::Nil => AbilitySet {
                has_copy: true,
                has_drop: true,
                has_store: true,
                has_key: true,
            },
            TypeList::Cons(head, tail) => {
                let a = self.abilities(head);
                let b = self.list_ability_meet(tail);
                AbilitySet {
                    has_copy: a.has_copy && b.has_copy,
                    has_drop: a.has_drop && b.has_drop,
                    has_store: a.has_store && b.has_store,
                    has_key: a.has_key && b.has_key,
                }
            },
        }
    }

    /// The ability set of `t`; see [`spec_abilities`].
    pub fn abilities(&self, t: &Type) -> (r: AbilitySet)
        ensures
            r == spec_abilities(*t, *self),
        decreases *t,
    {
        match t {
            Type::Signer => AbilitySet::signer_set(),
            Type::Vector(inner) => {
                let a = self.abilities(inner);
                AbilitySet {
                    has_copy: a.has_copy,
                    has_drop: a.has_drop,
                    has_store: a.has_store,
                    has_key: false,
                }
            },
            Type::Reference(_) => AbilitySet::references_set(),
            Type::MutableReference(_) => AbilitySet::references_set(),
            Type::Struct(idx) => {
                if *idx < self.structs.len() {
                    self.structs[*idx].abilities
                } else {
                    AbilitySet::none_set()
                }
            },
            Type::StructInstantiation(idx, tys) => {
                if *idx < self.structs.len() {
                    let declared = self.structs[*idx].abilities;
                    let meet = self.list_ability_meet(tys);
                    AbilitySet {
                        has_copy: declared.has_copy && meet.has_copy,
                        has_drop: declared.has_drop && meet.has_drop,
                        has_store: declared.has_store && meet.has_store,
                        has_key: declared.has_key && meet.has_store,
                    }
                } else {
                    AbilitySet::none_set()
                }
            },
            Type::TyParam(_) => AbilitySet::none_set(),
            _ => AbilitySet::primitives_set(),
        }
    }

    /// The loader's cached field count of a struct declaration.
    pub fn field_count(&self, idx: usize) -> (r: usize)
        requires
            idx < self.structs@.len(),
        ensures
            r == self.structs@[idx as int].field_count,
    {
        self.structs[idx].field_count
    }

    /// The type of a non-generic struct: its handle.
    pub fn get_struct_type(&self, idx: usize) -> (r: Type)
        ensures
            r == Type::Struct(idx),
    {
        Type::Struct(idx)
    }

    /// The declared field types of a struct, in declaration order.
    pub fn get_struct_fields(&self, idx: usize) -> (r: Vec<Type>)
        requires
            idx < self.structs@.len(),
        ensures
            r@ == self.structs@[idx as int].fields@,
    {
        clone_types(&self.structs[idx].fields)
    }

    /// The type of the struct owning the field behind a field handle.
    pub fn field_handle_to_struct(&self, fh: usize) -> (r: Type)
        requires
            fh < self.field_handles@.len(),
        ensures
            r == Type::Struct(self.field_handles@[fh as int].owner),
    {
        Type::Struct(self.field_handles[fh].owner)
    }

    /// The declared type of the field behind a field handle.
    pub fn get_field_type(&self, fh: usize) -> (r: Type)
        requires
            fh < self.field_handles@.len(),
            self.wf(),
        ensures
            r == spec_field_type(*self, fh as int),
    {
        let handle = &self.field_handles[fh];
        self.structs[handle.owner].fields[handle.field].clone()
    }

    /// The instantiated type of the struct owning the field behind a generic
    /// field access, under the current frame's type arguments.
    pub fn field_instantiation_to_struct(&self, idx: usize, ty_args: &Vec<Type>) -> (r: Type)
        requires
            idx < self.field_instantiations@.len(),
            self.wf(),
        ensures
            r == spec_generic_field_owner(*self, idx as int, ty_args@),
    {
        let fi = &self.field_instantiations[idx];
        let owner = self.field_handles[fi.handle].owner;
        let inst = subst_types(&fi.instantiation, ty_args);
        proof {
            assert(inst@ =~= spec_inst_types(fi.instantiation@, ty_args@));
        }
        Type::StructInstantiation(owner, types_to_list(&inst))
    }

    /// The instantiated type of the field behind a generic field access: the
    /// declared field type, substituted with the instantiation's type
    /// arguments, themselves substituted with the current frame's.
    pub fn instantiate_generic_field(&self, idx: usize, ty_args: &Vec<Type>) -> (r: Type)
        requires
            idx < self.field_instantiations@.len(),
            self.wf(),
        ensures
            r == spec_generic_field_type(*self, idx as int, ty_args@),
    {
        let fi = &self.field_instantiations[idx];
        let inst = subst_types(&fi.instantiation, ty_args);
        let field_ty = self.get_field_type(fi.handle);
        proof {
            assert(inst@ =~= spec_inst_types(fi.instantiation@, ty_args@));
        }
        field_ty.subst(&inst)
    }

    /// The loader's cached field count of a generic struct instantiation.
    pub fn field_instantiation_count(&self, idx: usize) -> (r: usize)
        requires
            idx < self.struct_instantiations@.len(),
        ensures
            r == self.struct_instantiations@[idx as int].field_count,
    {
        self.struct_instantiations[idx].field_count
    }

    /// The fully instantiated type of a generic struct instantiation under
    /// the current frame's type arguments.
    pub fn instantiate_generic_type(&self, idx: usize, ty_args: &Vec<Type>) -> (r: Type)
        requires
            idx < self.struct_instantiations@.len(),
        ensures
            r == spec_generic_struct_type(*self, idx as int, ty_args@),
    {
        let si = &self.struct_instantiations[idx];
        let inst = subst_types(&si.instantiation, ty_args);
        proof {
            assert(inst@ =~= spec_inst_types(si.instantiation@, ty_args@));
        }
        Type::StructInstantiation(si.def, types_to_list(&inst))
    }

    /// The instantiated field types of a generic struct instantiation, in
    /// declaration order.
    pub fn instantiate_generic_struct_fields(&self, idx: usize, ty_args: &Vec<Type>) -> (r: Vec<
        Type,
    >)
        requires
            idx < self.struct_instantiations@.len(),
            self.wf(),
        ensures
            r@ == spec_generic_struct_fields(*self, idx as int, ty_args@),
    {
        let si = &self.struct_instantiations[idx];
        let inst = subst_types(&si.instantiation, ty_args);
        let r = subst_types(&self.structs[si.def].fields, &inst);
        proof {
            assert(inst@ =~= spec_inst_types(si.instantiation@, ty_args@));
            assert(r@ =~= spec_generic_struct_fields(*self, idx as int, ty_args@));
        }
        r
    }

    /// The instantiated element type behind a signature handle, for the
    /// vector instructions.
    pub fn instantiate_single_type(&self, si: usize, ty_args: &Vec<Type>) -> (r: Type)
        requires
            si < self.single_types@.len(),
        ensures
            r == spec_single_type(*self, si as int, ty_args@),
    {
        self.single_types[si].subst(ty_args)
    }

    /// The declared type of a constant-pool entry.
    pub fn constant_type_at(&self, idx: usize) -> (r: Type)
        requires
            idx < self.constant_types@.len(),
        ensures
            r == self.constant_types@[idx as int],
    {
        self.constant_types[idx].clone()
    }
}

impl AbilitySet {
    /// Executable form of [`AbilitySet::none`].
    pub fn none_set() -> (r: AbilitySet)
        ensures
            r == AbilitySet::none(),
    {
        AbilitySet { has_copy: false, has_drop: false, has_store: false, has_key: false }
    }

    /// Executable form of [`AbilitySet::primitives`].
    pub fn primitives_set() -> (r: AbilitySet)
        ensures
            r == AbilitySet::primitives(),
    {
        AbilitySet { has_copy: true, has_drop: true, has_store: true, has_key: false }
    }

    /// Executable form of [`AbilitySet::signer`].
    pub fn signer_set() -> (r: AbilitySet)
        ensures
            r == AbilitySet::signer(),
    {
        AbilitySet { has_copy: false, has_drop: true, has_store: false, has_key: false }
    }

    /// Executable form of [`AbilitySet::references`].
    pub fn references_set() -> (r: AbilitySet)
        ensures
            r == AbilitySet::references(),
    {
        AbilitySet { has_copy: true, has_drop: true, has_store: false, has_key: false }
    }
}

} // verus!
