use vstd::prelude::*;

use crate::errors::TypeCheckError;

verus! {

/// A symbolic Move-level runtime type, the element of the shadow stack.
///
/// Types are immutable values: they are duplicated (cloned), never mutated in
/// place. Recursion goes through one owned box per recursive edge, so spec
/// equality (`==`) on `Type` is plain structural equality. A struct type is an
/// opaque handle into the loaded-module metadata; a generic instantiation
/// additionally carries its concrete type arguments. `TyParam` is a
/// type-parameter placeholder that only occurs in declared (not yet
/// substituted) types.
#[derive(Debug, PartialEq, Eq)]
pub enum Type {
    Bool,
    U8,
    U16,
    U32,
    U64,
    U128,
    U256,
    Address,
    Signer,
    Vector(Box<Type>),
    Reference(Box<Type>),
    MutableReference(Box<Type>),
    Struct(usize),
    StructInstantiation(usize, TypeList),
    TyParam(usize),
}

/// The type arguments of a generic struct instantiation, held as an owned
/// list with one box per edge so that equality stays structural.
#[derive(Debug, PartialEq, Eq)]
pub enum TypeList {
    Nil,
    Cons(Box<Type>, Box<TypeList>),
}

/// A set over the four substructural capabilities {Copy, Drop, Store, Key}
/// attached to a type. Only membership and subset tests are ever needed.
#[derive(Clone, Copy, Debug, PartialEq, Eq, Structural)]
pub struct AbilitySet {
    pub has_copy: bool,
    pub has_drop: bool,
    pub has_store: bool,
    pub has_key: bool,
}

impl AbilitySet {
    /// `self` is a subset of `other`: every capability of `self` is also in
    /// `other`.
    pub open spec fn spec_is_subset(self, other: AbilitySet) -> bool {
        &&& self.has_copy ==> other.has_copy
        &&& self.has_drop ==> other.has_drop
        &&& self.has_store ==> other.has_store
        &&& self.has_key ==> other.has_key
    }

    pub fn is_subset(self, other: AbilitySet) -> (r: bool)
        ensures
            r == self.spec_is_subset(other),
    {
        (!self.has_copy || other.has_copy) && (!self.has_drop || other.has_drop)
            && (!self.has_store || other.has_store) && (!self.has_key || other.has_key)
    }

    /// The empty ability set.
    pub open spec fn none() -> AbilitySet {
        AbilitySet { has_copy: false, has_drop: false, has_store: false, has_key: false }
    }

    /// The abilities of the primitive scalar and address types.
    pub open spec fn primitives() -> AbilitySet {
        AbilitySet { has_copy: true, has_drop: true, has_store: true, has_key: false }
    }

    /// The abilities of the signer type.
    pub open spec fn signer() -> AbilitySet {
        AbilitySet { has_copy: false, has_drop: true, has_store: false, has_key: false }
    }

    /// The abilities of a reference, mutable or not.
    pub open spec fn references() -> AbilitySet {
        AbilitySet { has_copy: true, has_drop: true, has_store: false, has_key: false }
    }
}

/// The ability set that every field of a struct with abilities `a` must
/// dominate when the struct is packed: a struct with Key requires all of its
/// fields to be independently Store and never Key, while the other abilities
/// pass through unchanged (a field's abilities may exceed the struct's, never
/// fall short).
pub open spec fn spec_field_expected_abilities(a: AbilitySet) -> AbilitySet {
    if a.has_key {
        AbilitySet { has_copy: a.has_copy, has_drop: a.has_drop, has_store: true, has_key: false }
    } else {
        a
    }
}

/// Executable form of [`spec_field_expected_abilities`].
pub fn field_expected_abilities(a: AbilitySet) -> (r: AbilitySet)
    ensures
        r == spec_field_expected_abilities(a),
{
    if a.has_key {
        AbilitySet { has_copy: a.has_copy, has_drop: a.has_drop, has_store: true, has_key: false }
    } else {
        a
    }
}

/// Substitution of type parameters: every `TyParam(i)` in `t` with `i` in
/// range is replaced by `args[i]`; an out-of-range index is left in place.
/// Substitution with an empty argument list is the identity.
pub open spec fn spec_subst(t: Type, args: Seq<Type>) -> Type
    decreases t,
{
    match t {
        Type::Vector(inner) => Type::Vector(Box::new(spec_subst(*inner, args))),
        Type::Reference(inner) => Type::Reference(Box::new(spec_subst(*inner, args))),
        Type::MutableReference(inner) => Type::MutableReference(
            Box::new(spec_subst(*inner, args)),
        ),
        Type::StructInstantiation(idx, tys) => Type::StructInstantiation(
            idx,
            spec_subst_list(tys, args),
        ),
        Type::TyParam(i) => if i < args.len() {
            args[i as int]
        } else {
            t
        },
        _ => t,
    }
}

/// [`spec_subst`] mapped over a list of type arguments.
pub open spec fn spec_subst_list(l: TypeList, args: Seq<Type>) -> TypeList
    decreases l,
{
    match l {
        TypeList::Nil => TypeList::Nil,
        TypeList::Cons(head, tail) => TypeList::Cons(
            Box::new(spec_subst(*head, args)),
            Box::new(spec_subst_list(*tail, args)),
        ),
    }
}

impl Type {
    /// Structural equality check; `Ok` exactly when the two types are equal.
    pub fn check_eq(&self, other: &Type) -> (r: Result<(), TypeCheckError>)
        ensures
            r is Ok <==> *self == *other,
            r is Err ==> r == Err::<(), TypeCheckError>(TypeCheckError::TypeMismatch),
        decreases *self,
    {
        match (self, other) {
            (Type::Bool, Type::Bool) => Ok(()),
            (Type::U8, Type::U8) => Ok(()),
            (Type::U16, Type::U16) => Ok(()),
            (Type::U32, Type::U32) => Ok(()),
            (Type::U64, Type::U64) => Ok(()),
            (Type::U128, Type::U128) => Ok(()),
            (Type::U256, Type::U256) => Ok(()),
            (Type::Address, Type::Address) => Ok(()),
            (Type::Signer, Type::Signer) => Ok(()),
            (Type::Vector(a), Type::Vector(b)) => a.check_eq(b),
            (Type::Reference(a), Type::Reference(b)) => a.check_eq(b),
            (Type::MutableReference(a), Type::MutableReference(b)) => a.check_eq(b),
            (Type::Struct(a), Type::Struct(b)) => {
                if a == b {
                    Ok(())
                } else {
                    Err(TypeCheckError::TypeMismatch)
                }
            },
            (Type::StructInstantiation(a, la), Type::StructInstantiation(b, lb)) => {
                if a == b {
                    la.check_eq(lb)
                } else {
                    Err(TypeCheckError::TypeMismatch)
                }
            },
            (Type::TyParam(a), Type::TyParam(b)) => {
                if a == b {
                    Ok(())
                } else {
                    Err(TypeCheckError::TypeMismatch)
                }
            },
            _ => Err(TypeCheckError::TypeMismatch),
        }
    }

    /// Reference-compatibility equality, for instructions that accept either
    /// a value or a reference to it: a reference (mutable or not) is
    /// compatible with `expected` when its pointee equals `expected`; any
    /// other type must equal `expected` itself.
    pub open spec fn spec_ref_compatible(self, expected: Type) -> bool {
        match self {
            Type::Reference(inner) => *inner == expected,
            Type::MutableReference(inner) => *inner == expected,
            _ => self == expected,
        }
    }

    /// Relaxed equality check; `Ok` exactly when `self` is
    /// reference-compatible with `expected`.
    pub fn check_ref_eq(&self, expected: &Type) -> (r: Result<(), TypeCheckError>)
        ensures
            r is Ok <==> self.spec_ref_compatible(*expected),
            r is Err ==> r == Err::<(), TypeCheckError>(TypeCheckError::TypeMismatch),
    {
        match self {
            Type::Reference(inner) => inner.check_eq(expected),
            Type::MutableReference(inner) => inner.check_eq(expected),
            _ => self.check_eq(expected),
        }
    }

    /// `self` is a reference to a vector whose element type is `element`,
    /// and the reference is mutable if `is_mut` demands it.
    pub open spec fn spec_is_vec_ref(self, element: Type, is_mut: bool) -> bool {
        match self {
            Type::MutableReference(v) => *v == Type::Vector(Box::new(element)),
            Type::Reference(v) => !is_mut && *v == Type::Vector(Box::new(element)),
            _ => false,
        }
    }

    /// Vector-reference check; `Ok(element type)` exactly when `self` is a
    /// (sufficiently mutable) reference to a vector of `element`.
    pub fn check_vec_ref(&self, element: &Type, is_mut: bool) -> (r: Result<
        Type,
        TypeCheckError,
    >)
        ensures
            r is Ok <==> self.spec_is_vec_ref(*element, is_mut),
            r matches Ok(t) ==> t == *element,
            r is Err ==> r == Err::<Type, TypeCheckError>(TypeCheckError::TypeMismatch),
    {
        match self {
            Type::MutableReference(v) => match &**v {
                Type::Vector(inner) => {
                    inner.check_eq(element)?;
                    Ok(element.clone())
                },
                _ => Err(TypeCheckError::TypeMismatch),
            },
            Type::Reference(v) => {
                if is_mut {
                    Err(TypeCheckError::TypeMismatch)
                } else {
                    match &**v {
                        Type::Vector(inner) => {
                            inner.check_eq(element)?;
                            Ok(element.clone())
                        },
                        _ => Err(TypeCheckError::TypeMismatch),
                    }
                }
            },
            _ => Err(TypeCheckError::TypeMismatch),
        }
    }

    /// Executable substitution; see [`spec_subst`].
    pub fn subst(&self, ty_args: &Vec<Type>) -> (r: Type)
        ensures
            r == spec_subst(*self, ty_args@),
        decreases *self,
    {
        match self {
            Type::Vector(inner) => Type::Vector(Box::new(inner.subst(ty_args))),
            Type::Reference(inner) => Type::Reference(Box::new(inner.subst(ty_args))),
            Type::MutableReference(inner) => Type::MutableReference(
                Box::new(inner.subst(ty_args)),
            ),
            Type::StructInstantiation(idx, tys) => Type::StructInstantiation(
                *idx,
                tys.subst_list(ty_args),
            ),
            Type::TyParam(i) => {
                if *i < ty_args.len() {
                    ty_args[*i].clone()
                } else {
                    Type::TyParam(*i)
                }
            },
            _ => self.clone(),
        }
    }
}

impl TypeList {
    /// Structural equality check over a list of type arguments.
    pub fn check_eq(&self, other: &TypeList) -> (r: Result<(), TypeCheckError>)
        ensures
            r is Ok <==> *self == *other,
            r is Err ==> r == Err::<(), TypeCheckError>(TypeCheckError::TypeMismatch),
        decreases *self,
    {
        match (self, other) {
            (TypeList::Nil, TypeList::Nil) => Ok(()),
            (TypeList::Cons(a, ta), TypeList::Cons(b, tb)) => {
                a.check_eq(b)?;
                ta.check_eq(tb)
            },
            _ => Err(TypeCheckError::TypeMismatch),
        }
    }

    /// Executable substitution over a list; see [`spec_subst_list`].
    pub fn subst_list(&self, ty_args: &Vec<Type>) -> (r: TypeList)
        ensures
            r == spec_subst_list(*self, ty_args@),
        decreases *self,
    {
        match self {
            TypeList::Nil => TypeList::Nil,
            TypeList::Cons(head, tail) => TypeList::Cons(
                Box::new(head.subst(ty_args)),
                Box::new(tail.subst_list(ty_args)),
            ),
        }
    }
}

impl Clone for Type {
    /// Types are duplicated freely; the copy equals the original.
    fn clone(&self) -> (r: Self)
        ensures
            r == *self,
        decreases *self,
    {
        match self {
            Type::Bool => Type::Bool,
            Type::U8 => Type::U8,
            Type::U16 => Type::U16,
            Type::U32 => Type::U32,
            Type::U64 => Type::U64,
            Type::U128 => Type::U128,
            Type::U256 => Type::U256,
            Type::Address => Type::Address,
            Type::Signer => Type::Signer,
            Type::Vector(inner) => Type::Vector(Box::new((**inner).clone())),
            Type::Reference(inner) => Type::Reference(Box::new((**inner).clone())),
            Type::MutableReference(inner) => Type::MutableReference(
                Box::new((**inner).clone()),
            ),
            Type::Struct(idx) => Type::Struct(*idx),
            Type::StructInstantiation(idx, tys) => Type::StructInstantiation(
                *idx,
                (*tys).clone(),
            ),
            Type::TyParam(i) => Type::TyParam(*i),
        }
    }
}

impl Clone for TypeList {
    /// The copy equals the original.
    fn clone(&self) -> (r: Self)
        ensures
            r == *self,
        decreases *self,
    {
        match self {
            TypeList::Nil => TypeList::Nil,
            TypeList::Cons(head, tail) => TypeList::Cons(
                Box::new((**head).clone()),
                Box::new((**tail).clone()),
            ),
        }
    }
}

/// The `TypeList` holding the elements of `s` in order.
pub open spec fn list_of(s: Seq<Type>) -> TypeList
    decreases s.len(),
{
    if s.len() == 0 {
        TypeList::Nil
    } else {
        TypeList::Cons(Box::new(s[0]), Box::new(list_of(s.drop_first())))
    }
}

/// Builds the `TypeList` holding the elements of `v[i..]` in order.
fn types_to_list_from(v: &Vec<Type>, i: usize) -> (r: TypeList)
    requires
        i <= v@.len(),
    ensures
        r == list_of(v@.subrange(i as int, v@.len() as int)),
    decreases v@.len() - i,
{
    let ghost s = v@.subrange(i as int, v@.len() as int);
    if i == v.len() {
        proof {
            assert(s.len() == 0);
        }
        TypeList::Nil
    } else {
        let head = v[i].clone();
        let tail = types_to_list_from(v, i + 1);
        proof {
            assert(s.drop_first() =~= v@.subrange(i + 1, v@.len() as int));
            assert(s[0] == v@[i as int]);
        }
        TypeList::Cons(Box::new(head), Box::new(tail))
    }
}

/// Converts a vector of types into the equivalent `TypeList`.
pub fn types_to_list(v: &Vec<Type>) -> (r: TypeList)
    ensures
        r == list_of(v@),
{
    let r = types_to_list_from(v, 0);
    proof {
        assert(v@.subrange(0, v@.len() as int) =~= v@);
    }
    r
}

/// Substitutes `ty_args` into every element of `v`.
pub fn subst_types(v: &Vec<Type>, ty_args: &Vec<Type>) -> (r: Vec<Type>)
    ensures
        r@ == v@.map_values(|t: Type| spec_subst(t, ty_args@)),
{
    let mut out: Vec<Type> = Vec::new();
    let mut i: usize = 0;
    while i < v.len()
        invariant
            i <= v.len(),
            out@ == v@.take(i as int).map_values(|t: Type| spec_subst(t, ty_args@)),
        decreases v.len() - i,
    {
        out.push(v[i].subst(ty_args));
        proof {
            assert(out@ =~= v@.take(i + 1).map_values(|t: Type| spec_subst(t, ty_args@)));
        }
        i = i + 1;
    }
    proof {
        assert(v@.take(v@.len() as int) =~= v@);
    }
    out
}

/// Duplicates a sequence of types element by element; the copy's view equals
/// the original's.
pub fn clone_types(v: &Vec<Type>) -> (r: Vec<Type>)
    ensures
        r@ == v@,
{
    let mut out: Vec<Type> = Vec::new();
    let mut i: usize = 0;
    while i < v.len()
        invariant
            i <= v.len(),
            out@ == v@.take(i as int),
        decreases v.len() - i,
    {
        out.push(v[i].clone());
        proof {
            assert(out@ =~= v@.take(i + 1));
        }
        i = i + 1;
    }
    proof {
        assert(v@.take(v@.len() as int) =~= v@);
    }
    out
}

} // verus!
