use vstd::prelude::*;

verus! {

/// The instruction set whose type effects the checker re-verifies, one
/// variant per opcode. Payloads are the plain values the checker reads:
/// local-slot indices, handles into the resolver's tables (struct
/// declarations, struct instantiations, field handles, field instantiations,
/// signature single types, the constant pool), code offsets, element counts,
/// and immediate constants. The checker never reads an immediate's value,
/// only its type.
#[derive(Clone, Copy, Debug)]
pub enum Bytecode {
    Pop,
    Ret,
    Abort,
    Nop,
    Not,
    BrTrue(u16),
    BrFalse(u16),
    Branch(u16),
    LdU8(u8),
    LdU16(u16),
    LdU32(u32),
    LdU64(u64),
    LdU128(u128),
    LdU256,
    LdTrue,
    LdFalse,
    LdConst(u16),
    CastU8,
    CastU16,
    CastU32,
    CastU64,
    CastU128,
    CastU256,
    CopyLoc(u8),
    MoveLoc(u8),
    StLoc(u8),
    MutBorrowLoc(u8),
    ImmBorrowLoc(u8),
    ImmBorrowField(u16),
    MutBorrowField(u16),
    ImmBorrowFieldGeneric(u16),
    MutBorrowFieldGeneric(u16),
    Pack(u16),
    PackGeneric(u16),
    Unpack(u16),
    UnpackGeneric(u16),
    ReadRef,
    WriteRef,
    FreezeRef,
    Add,
    Sub,
    Mul,
    Mod,
    Div,
    BitOr,
    BitAnd,
    Xor,
    Or,
    And,
    Shl,
    Shr,
    Lt,
    Gt,
    Le,
    Ge,
    Eq,
    Neq,
    MutBorrowGlobal(u16),
    ImmBorrowGlobal(u16),
    MutBorrowGlobalGeneric(u16),
    ImmBorrowGlobalGeneric(u16),
    Exists(u16),
    ExistsGeneric(u16),
    MoveTo(u16),
    MoveToGeneric(u16),
    MoveFrom(u16),
    MoveFromGeneric(u16),
    Call(u16),
    CallGeneric(u16),
    VecPack(u16, usize),
    VecLen(u16),
    VecImmBorrow(u16),
    VecMutBorrow(u16),
    VecPushBack(u16),
    VecPopBack(u16),
    VecUnpack(u16, usize),
    VecSwap(u16),
}

} // verus!
