use rv_asm::{AmoOp, AmoOrdering, DecodeError, Fence, Imm, Inst, IsCompressed, Reg};
use vstd::prelude::*;

verus! {

/// rv_asm's immediate operand, opaque here; its value is read through
/// `Imm::as_u64`.
#[verifier::external_type_specification]
#[verifier::external_body]
pub struct ExImm(Imm);

/// rv_asm's register operand, a public register number.
#[verifier::external_type_specification]
pub struct ExReg(Reg);

/// rv_asm's fence details, opaque here: a fence executes as a no-op.
#[verifier::external_type_specification]
#[verifier::external_body]
pub struct ExFence(Fence);

/// rv_asm's atomic ordering, opaque here: atomics are unsupported.
#[verifier::external_type_specification]
#[verifier::external_body]
pub struct ExAmoOrdering(AmoOrdering);

/// rv_asm's atomic operation, opaque here: atomics are unsupported.
#[verifier::external_type_specification]
#[verifier::external_body]
pub struct ExAmoOp(AmoOp);

/// rv_asm's instruction length tag.
#[verifier::external_type_specification]
pub struct ExIsCompressed(IsCompressed);

/// rv_asm's decoding error, opaque here: only its occurrence is used.
#[verifier::external_type_specification]
#[verifier::external_body]
pub struct ExDecodeError(DecodeError);

/// rv_asm's decoded instruction, with its variants visible so that
/// verified code converts it into `Instruction`.
#[verifier::external_type_specification]
pub struct ExInst(Inst);

/// The 64-bit value of an immediate operand.
pub uninterp spec fn imm_bits(i: Imm) -> u64;

/// Relies on rv_asm's `Imm::as_u64`: the immediate's stored 64-bit value,
/// the same for equal immediates.
pub assume_specification[ Imm::as_u64 ](i: Imm) -> (r: u64)
    ensures
        r == imm_bits(i),
;

/// What rv_asm decodes a 32-bit instruction word into, in 64-bit mode.
pub uninterp spec fn rv64_decoded(code: u32) -> Result<(Inst, IsCompressed), DecodeError>;

/// Relies on rv_asm's `Inst::decode` with `Xlen::Rv64`: a pure function of the
/// word, which reports a compressed instruction exactly when the low two bits
/// are not both set.
#[verifier::external_body]
fn decode_rv64(code: u32) -> (r: Result<(Inst, IsCompressed), DecodeError>)
    ensures
        r == rv64_decoded(code),
        r is Ok ==> ((r->Ok_0.1 == IsCompressed::Yes) <==> (code & 3 != 3)),
{
    Inst::decode(code, rv_asm::Xlen::Rv64)
}

/// Register-register and register-immediate operations.
#[derive(Debug, Clone, Copy, PartialEq, Eq, Structural)]
pub enum AluOp {
    Add,
    Sub,
    Sll,
    Slt,
    Sltu,
    Xor,
    Srl,
    Sra,
    Or,
    And,
    Mul,
    Mulh,
    Mulhsu,
    Mulhu,
    Div,
    Divu,
    Rem,
    Remu,
}

/// Conditions of the conditional branches.
#[derive(Debug, Clone, Copy, PartialEq, Eq, Structural)]
pub enum BranchOp {
    Eq,
    Ne,
    Lt,
    Ge,
    Ltu,
    Geu,
}

/// Loads, by width and extension.
#[derive(Debug, Clone, Copy, PartialEq, Eq, Structural)]
pub enum LoadOp {
    Lb,
    Lbu,
    Lh,
    Lhu,
    Lw,
    Lwu,
    Ld,
}

/// A decoded RV64IM instruction. Registers are numbered 0 to 31; immediates
/// and offsets are sign-extended to 64 bits and counted in bytes.
#[derive(Debug, Clone, Copy, PartialEq, Eq, Structural)]
pub enum Instruction {
    Lui { dest: u8, imm: u64 },
    Auipc { dest: u8, imm: u64 },
    Jal { dest: u8, offset: u64 },
    Jalr { dest: u8, base: u8, offset: u64 },
    Branch { op: BranchOp, src1: u8, src2: u8, offset: u64 },
    Load { op: LoadOp, dest: u8, base: u8, offset: u64 },
    /// Stores the low `width` bytes (1, 2, 4 or 8) of `src`.
    Store { width: u64, src: u8, base: u8, offset: u64 },
    /// `word` marks the 32-bit variant.
    Op { op: AluOp, word: bool, dest: u8, src1: u8, src2: u8 },
    /// `word` marks the 32-bit variant.
    OpImm { op: AluOp, word: bool, dest: u8, src1: u8, imm: u64 },
    Fence,
    Ecall,
    /// Decoded, but outside the supported set (EBREAK, atomics).
    Unsupported,
}

/// The library's form of an rv_asm instruction.
pub open spec fn lift_spec(i: Inst) -> Instruction {
    match i {
        Inst::Lui { uimm, dest } => Instruction::Lui { dest: dest.0 % 32, imm: imm_bits(uimm) },
        Inst::Auipc { uimm, dest } => Instruction::Auipc { dest: dest.0 % 32, imm: imm_bits(uimm) },
        Inst::Jal { offset, dest } => Instruction::Jal { dest: dest.0 % 32, offset: imm_bits(offset) },
        Inst::Jalr { offset, base, dest } => Instruction::Jalr {
            dest: dest.0 % 32,
            base: base.0 % 32,
            offset: imm_bits(offset),
        },
        Inst::Beq { offset, src1, src2 } => Instruction::Branch {
            op: BranchOp::Eq,
            src1: src1.0 % 32,
            src2: src2.0 % 32,
            offset: imm_bits(offset),
        },
        Inst::Bne { offset, src1, src2 } => Instruction::Branch {
            op: BranchOp::Ne,
            src1: src1.0 % 32,
            src2: src2.0 % 32,
            offset: imm_bits(offset),
        },
        Inst::Blt { offset, src1, src2 } => Instruction::Branch {
            op: BranchOp::Lt,
            src1: src1.0 % 32,
            src2: src2.0 % 32,
            offset: imm_bits(offset),
        },
        Inst::Bge { offset, src1, src2 } => Instruction::Branch {
            op: BranchOp::Ge,
            src1: src1.0 % 32,
            src2: src2.0 % 32,
            offset: imm_bits(offset),
        },
        Inst::Bltu { offset, src1, src2 } => Instruction::Branch {
            op: BranchOp::Ltu,
            src1: src1.0 % 32,
            src2: src2.0 % 32,
            offset: imm_bits(offset),
        },
        Inst::Bgeu { offset, src1, src2 } => Instruction::Branch {
            op: BranchOp::Geu,
            src1: src1.0 % 32,
            src2: src2.0 % 32,
            offset: imm_bits(offset),
        },
        Inst::Lb { offset, dest, base } => Instruction::Load {
            op: LoadOp::Lb,
            dest: dest.0 % 32,
            base: base.0 % 32,
            offset: imm_bits(offset),
        },
        Inst::Lbu { offset, dest, base } => Instruction::Load {
            op: LoadOp::Lbu,
            dest: dest.0 % 32,
            base: base.0 % 32,
            offset: imm_bits(offset),
        },
        Inst::Lh { offset, dest, base } => Instruction::Load {
            op: LoadOp::Lh,
            dest: dest.0 % 32,
            base: base.0 % 32,
            offset: imm_bits(offset),
        },
        Inst::Lhu { offset, dest, base } => Instruction::Load {
            op: LoadOp::Lhu,
            dest: dest.0 % 32,
            base: base.0 % 32,
            offset: imm_bits(offset),
        },
        Inst::Lw { offset, dest, base } => Instruction::Load {
            op: LoadOp::Lw,
            dest: dest.0 % 32,
            base: base.0 % 32,
            offset: imm_bits(offset),
        },
        Inst::Lwu { offset, dest, base } => Instruction::Load {
            op: LoadOp::Lwu,
            dest: dest.0 % 32,
            base: base.0 % 32,
            offset: imm_bits(offset),
        },
        Inst::Ld { offset, dest, base } => Instruction::Load {
            op: LoadOp::Ld,
            dest: dest.0 % 32,
            base: base.0 % 32,
            offset: imm_bits(offset),
        },
        Inst::Sb { offset, src, base } => Instruction::Store {
            width: 1,
            src: src.0 % 32,
            base: base.0 % 32,
            offset: imm_bits(offset),
        },
        Inst::Sh { offset, src, base } => Instruction::Store {
            width: 2,
            src: src.0 % 32,
            base: base.0 % 32,
            offset: imm_bits(offset),
        },
        Inst::Sw { offset, src, base } => Instruction::Store {
            width: 4,
            src: src.0 % 32,
            base: base.0 % 32,
            offset: imm_bits(offset),
        },
        Inst::Sd { offset, src, base } => Instruction::Store {
            width: 8,
            src: src.0 % 32,
            base: base.0 % 32,
            offset: imm_bits(offset),
        },
        Inst::Add { dest, src1, src2 } => Instruction::Op {
            op: AluOp::Add,
            word: false,
            dest: dest.0 % 32,
            src1: src1.0 % 32,
            src2: src2.0 % 32,
        },
        Inst::AddW { dest, src1, src2 } => Instruction::Op {
            op: AluOp::Add,
            word: true,
            dest: dest.0 % 32,
            src1: src1.0 % 32,
            src2: src2.0 % 32,
        },
        Inst::Sub { dest, src1, src2 } => Instruction::Op {
            op: AluOp::Sub,
            word: false,
            dest: dest.0 % 32,
            src1: src1.0 % 32,
            src2: src2.0 % 32,
        },
        Inst::SubW { dest, src1, src2 } => Instruction::Op {
            op: AluOp::Sub,
            word: true,
            dest: dest.0 % 32,
            src1: src1.0 % 32,
            src2: src2.0 % 32,
        },
        Inst::Sll { dest, src1, src2 } => Instruction::Op {
            op: AluOp::Sll,
            word: false,
            dest: dest.0 % 32,
            src1: src1.0 % 32,
            src2: src2.0 % 32,
        },
        Inst::SllW { dest, src1, src2 } => Instruction::Op {
            op: AluOp::Sll,
            word: true,
            dest: dest.0 % 32,
            src1: src1.0 % 32,
            src2: src2.0 % 32,
        },
        Inst::Slt { dest, src1, src2 } => Instruction::Op {
            op: AluOp::Slt,
            word: false,
            dest: dest.0 % 32,
            src1: src1.0 % 32,
            src2: src2.0 % 32,
        },
        Inst::Sltu { dest, src1, src2 } => Instruction::Op {
            op: AluOp::Sltu,
            word: false,
            dest: dest.0 % 32,
            src1: src1.0 % 32,
            src2: src2.0 % 32,
        },
        Inst::Xor { dest, src1, src2 } => Instruction::Op {
            op: AluOp::Xor,
            word: false,
            dest: dest.0 % 32,
            src1: src1.0 % 32,
            src2: src2.0 % 32,
        },
        Inst::Srl { dest, src1, src2 } => Instruction::Op {
            op: AluOp::Srl,
            word: false,
            dest: dest.0 % 32,
            src1: src1.0 % 32,
            src2: src2.0 % 32,
        },
        Inst::SrlW { dest, src1, src2 } => Instruction::Op {
            op: AluOp::Srl,
            word: true,
            dest: dest.0 % 32,
            src1: src1.0 % 32,
            src2: src2.0 % 32,
        },
        Inst::Sra { dest, src1, src2 } => Instruction::Op {
            op: AluOp::Sra,
            word: false,
            dest: dest.0 % 32,
            src1: src1.0 % 32,
            src2: src2.0 % 32,
        },
        Inst::SraW { dest, src1, src2 } => Instruction::Op {
            op: AluOp::Sra,
            word: true,
            dest: dest.0 % 32,
            src1: src1.0 % 32,
            src2: src2.0 % 32,
        },
        Inst::Or { dest, src1, src2 } => Instruction::Op {
            op: AluOp::Or,
            word: false,
            dest: dest.0 % 32,
            src1: src1.0 % 32,
            src2: src2.0 % 32,
        },
        Inst::And { dest, src1, src2 } => Instruction::Op {
            op: AluOp::And,
            word: false,
            dest: dest.0 % 32,
            src1: src1.0 % 32,
            src2: src2.0 % 32,
        },
        Inst::Mul { dest, src1, src2 } => Instruction::Op {
            op: AluOp::Mul,
            word: false,
            dest: dest.0 % 32,
            src1: src1.0 % 32,
            src2: src2.0 % 32,
        },
        Inst::MulW { dest, src1, src2 } => Instruction::Op {
            op: AluOp::Mul,
            word: true,
            dest: dest.0 % 32,
            src1: src1.0 % 32,
            src2: src2.0 % 32,
        },
        Inst::Mulh { dest, src1, src2 } => Instruction::Op {
            op: AluOp::Mulh,
            word: false,
            dest: dest.0 % 32,
            src1: src1.0 % 32,
            src2: src2.0 % 32,
        },
        Inst::Mulhsu { dest, src1, src2 } => Instruction::Op {
            op: AluOp::Mulhsu,
            word: false,
            dest: dest.0 % 32,
            src1: src1.0 % 32,
            src2: src2.0 % 32,
        },
        Inst::Mulhu { dest, src1, src2 } => Instruction::Op {
            op: AluOp::Mulhu,
            word: false,
            dest: dest.0 % 32,
            src1: src1.0 % 32,
            src2: src2.0 % 32,
        },
        Inst::Div { dest, src1, src2 } => Instruction::Op {
            op: AluOp::Div,
            word: false,
            dest: dest.0 % 32,
            src1: src1.0 % 32,
            src2: src2.0 % 32,
        },
        Inst::DivW { dest, src1, src2 } => Instruction::Op {
            op: AluOp::Div,
            word: true,
            dest: dest.0 % 32,
            src1: src1.0 % 32,
            src2: src2.0 % 32,
        },
        Inst::Divu { dest, src1, src2 } => Instruction::Op {
            op: AluOp::Divu,
            word: false,
            dest: dest.0 % 32,
            src1: src1.0 % 32,
            src2: src2.0 % 32,
        },
        Inst::DivuW { dest, src1, src2 } => Instruction::Op {
            op: AluOp::Divu,
            word: true,
            dest: dest.0 % 32,
            src1: src1.0 % 32,
            src2: src2.0 % 32,
        },
        Inst::Rem { dest, src1, src2 } => Instruction::Op {
            op: AluOp::Rem,
            word: false,
            dest: dest.0 % 32,
            src1: src1.0 % 32,
            src2: src2.0 % 32,
        },
        Inst::RemW { dest, src1, src2 } => Instruction::Op {
            op: AluOp::Rem,
            word: true,
            dest: dest.0 % 32,
            src1: src1.0 % 32,
            src2: src2.0 % 32,
        },
        Inst::Remu { dest, src1, src2 } => Instruction::Op {
            op: AluOp::Remu,
            word: false,
            dest: dest.0 % 32,
            src1: src1.0 % 32,
            src2: src2.0 % 32,
        },
        Inst::RemuW { dest, src1, src2 } => Instruction::Op {
            op: AluOp::Remu,
            word: true,
            dest: dest.0 % 32,
            src1: src1.0 % 32,
            src2: src2.0 % 32,
        },
        Inst::Addi { imm, dest, src1 } => Instruction::OpImm {
            op: AluOp::Add,
            word: false,
            dest: dest.0 % 32,
            src1: src1.0 % 32,
            imm: imm_bits(imm),
        },
        Inst::AddiW { imm, dest, src1 } => Instruction::OpImm {
            op: AluOp::Add,
            word: true,
            dest: dest.0 % 32,
            src1: src1.0 % 32,
            imm: imm_bits(imm),
        },
        Inst::Slti { imm, dest, src1 } => Instruction::OpImm {
            op: AluOp::Slt,
            word: false,
            dest: dest.0 % 32,
            src1: src1.0 % 32,
            imm: imm_bits(imm),
        },
        Inst::Sltiu { imm, dest, src1 } => Instruction::OpImm {
            op: AluOp::Sltu,
            word: false,
            dest: dest.0 % 32,
            src1: src1.0 % 32,
            imm: imm_bits(imm),
        },
        Inst::Xori { imm, dest, src1 } => Instruction::OpImm {
            op: AluOp::Xor,
            word: false,
            dest: dest.0 % 32,
            src1: src1.0 % 32,
            imm: imm_bits(imm),
        },
        Inst::Ori { imm, dest, src1 } => Instruction::OpImm {
            op: AluOp::Or,
            word: false,
            dest: dest.0 % 32,
            src1: src1.0 % 32,
            imm: imm_bits(imm),
        },
        Inst::Andi { imm, dest, src1 } => Instruction::OpImm {
            op: AluOp::And,
            word: false,
            dest: dest.0 % 32,
            src1: src1.0 % 32,
            imm: imm_bits(imm),
        },
        Inst::Slli { imm, dest, src1 } => Instruction::OpImm {
            op: AluOp::Sll,
            word: false,
            dest: dest.0 % 32,
            src1: src1.0 % 32,
            imm: imm_bits(imm),
        },
        Inst::SlliW { imm, dest, src1 } => Instruction::OpImm {
            op: AluOp::Sll,
            word: true,
            dest: dest.0 % 32,
            src1: src1.0 % 32,
            imm: imm_bits(imm),
        },
        Inst::Srli { imm, dest, src1 } => Instruction::OpImm {
            op: AluOp::Srl,
            word: false,
            dest: dest.0 % 32,
            src1: src1.0 % 32,
            imm: imm_bits(imm),
        },
        Inst::SrliW { imm, dest, src1 } => Instruction::OpImm {
            op: AluOp::Srl,
            word: true,
            dest: dest.0 % 32,
            src1: src1.0 % 32,
            imm: imm_bits(imm),
        },
        Inst::Srai { imm, dest, src1 } => Instruction::OpImm {
            op: AluOp::Sra,
            word: false,
            dest: dest.0 % 32,
            src1: src1.0 % 32,
            imm: imm_bits(imm),
        },
        Inst::SraiW { imm, dest, src1 } => Instruction::OpImm {
            op: AluOp::Sra,
            word: true,
            dest: dest.0 % 32,
            src1: src1.0 % 32,
            imm: imm_bits(imm),
        },
        Inst::Fence { .. } => Instruction::Fence,
        Inst::Ecall => Instruction::Ecall,
        _ => Instruction::Unsupported,
    }
}

/// Converts an rv_asm instruction into the library's form.
pub fn lift(i: Inst) -> (r: Instruction)
    ensures
        r == lift_spec(i),
{
    match i {
        Inst::Lui { uimm, dest } => Instruction::Lui { dest: dest.0 % 32, imm: uimm.as_u64() },
        Inst::Auipc { uimm, dest } => Instruction::Auipc { dest: dest.0 % 32, imm: uimm.as_u64() },
        Inst::Jal { offset, dest } => Instruction::Jal { dest: dest.0 % 32, offset: offset.as_u64() },
        Inst::Jalr { offset, base, dest } => Instruction::Jalr {
            dest: dest.0 % 32,
            base: base.0 % 32,
            offset: offset.as_u64(),
        },
        Inst::Beq { offset, src1, src2 } => Instruction::Branch {
            op: BranchOp::Eq,
            src1: src1.0 % 32,
            src2: src2.0 % 32,
            offset: offset.as_u64(),
        },
        Inst::Bne { offset, src1, src2 } => Instruction::Branch {
            op: BranchOp::Ne,
            src1: src1.0 % 32,
            src2: src2.0 % 32,
            offset: offset.as_u64(),
        },
        Inst::Blt { offset, src1, src2 } => Instruction::Branch {
            op: BranchOp::Lt,
            src1: src1.0 % 32,
            src2: src2.0 % 32,
            offset: offset.as_u64(),
        },
        Inst::Bge { offset, src1, src2 } => Instruction::Branch {
            op: BranchOp::Ge,
            src1: src1.0 % 32,
            src2: src2.0 % 32,
            offset: offset.as_u64(),
        },
        Inst::Bltu { offset, src1, src2 } => Instruction::Branch {
            op: BranchOp::Ltu,
            src1: src1.0 % 32,
            src2: src2.0 % 32,
            offset: offset.as_u64(),
        },
        Inst::Bgeu { offset, src1, src2 } => Instruction::Branch {
            op: BranchOp::Geu,
            src1: src1.0 % 32,
            src2: src2.0 % 32,
            offset: offset.as_u64(),
        },
        Inst::Lb { offset, dest, base } => Instruction::Load {
            op: LoadOp::Lb,
            dest: dest.0 % 32,
            base: base.0 % 32,
            offset: offset.as_u64(),
        },
        Inst::Lbu { offset, dest, base } => Instruction::Load {
            op: LoadOp::Lbu,
            dest: dest.0 % 32,
            base: base.0 % 32,
            offset: offset.as_u64(),
        },
        Inst::Lh { offset, dest, base } => Instruction::Load {
            op: LoadOp::Lh,
            dest: dest.0 % 32,
            base: base.0 % 32,
            offset: offset.as_u64(),
        },
        Inst::Lhu { offset, dest, base } => Instruction::Load {
            op: LoadOp::Lhu,
            dest: dest.0 % 32,
            base: base.0 % 32,
            offset: offset.as_u64(),
        },
        Inst::Lw { offset, dest, base } => Instruction::Load {
            op: LoadOp::Lw,
            dest: dest.0 % 32,
            base: base.0 % 32,
            offset: offset.as_u64(),
        },
        Inst::Lwu { offset, dest, base } => Instruction::Load {
            op: LoadOp::Lwu,
            dest: dest.0 % 32,
            base: base.0 % 32,
            offset: offset.as_u64(),
        },
        Inst::Ld { offset, dest, base } => Instruction::Load {
            op: LoadOp::Ld,
            dest: dest.0 % 32,
            base: base.0 % 32,
            offset: offset.as_u64(),
        },
        Inst::Sb { offset, src, base } => Instruction::Store {
            width: 1,
            src: src.0 % 32,
            base: base.0 % 32,
            offset: offset.as_u64(),
        },
        Inst::Sh { offset, src, base } => Instruction::Store {
            width: 2,
            src: src.0 % 32,
            base: base.0 % 32,
            offset: offset.as_u64(),
        },
        Inst::Sw { offset, src, base } => Instruction::Store {
            width: 4,
            src: src.0 % 32,
            base: base.0 % 32,
            offset: offset.as_u64(),
        },
        Inst::Sd { offset, src, base } => Instruction::Store {
            width: 8,
            src: src.0 % 32,
            base: base.0 % 32,
            offset: offset.as_u64(),
        },
        Inst::Add { dest, src1, src2 } => Instruction::Op {
            op: AluOp::Add,
            word: false,
            dest: dest.0 % 32,
            src1: src1.0 % 32,
            src2: src2.0 % 32,
        },
        Inst::AddW { dest, src1, src2 } => Instruction::Op {
            op: AluOp::Add,
            word: true,
            dest: dest.0 % 32,
            src1: src1.0 % 32,
            src2: src2.0 % 32,
        },
        Inst::Sub { dest, src1, src2 } => Instruction::Op {
            op: AluOp::Sub,
            word: false,
            dest: dest.0 % 32,
            src1: src1.0 % 32,
            src2: src2.0 % 32,
        },
        Inst::SubW { dest, src1, src2 } => Instruction::Op {
            op: AluOp::Sub,
            word: true,
            dest: dest.0 % 32,
            src1: src1.0 % 32,
            src2: src2.0 % 32,
        },
        Inst::Sll { dest, src1, src2 } => Instruction::Op {
            op: AluOp::Sll,
            word: false,
            dest: dest.0 % 32,
            src1: src1.0 % 32,
            src2: src2.0 % 32,
        },
        Inst::SllW { dest, src1, src2 } => Instruction::Op {
            op: AluOp::Sll,
            word: true,
            dest: dest.0 % 32,
            src1: src1.0 % 32,
            src2: src2.0 % 32,
        },
        Inst::Slt { dest, src1, src2 } => Instruction::Op {
            op: AluOp::Slt,
            word: false,
            dest: dest.0 % 32,
            src1: src1.0 % 32,
            src2: src2.0 % 32,
        },
        Inst::Sltu { dest, src1, src2 } => Instruction::Op {
            op: AluOp::Sltu,
            word: false,
            dest: dest.0 % 32,
            src1: src1.0 % 32,
            src2: src2.0 % 32,
        },
        Inst::Xor { dest, src1, src2 } => Instruction::Op {
            op: AluOp::Xor,
            word: false,
            dest: dest.0 % 32,
            src1: src1.0 % 32,
            src2: src2.0 % 32,
        },
        Inst::Srl { dest, src1, src2 } => Instruction::Op {
            op: AluOp::Srl,
            word: false,
            dest: dest.0 % 32,
            src1: src1.0 % 32,
            src2: src2.0 % 32,
        },
        Inst::SrlW { dest, src1, src2 } => Instruction::Op {
            op: AluOp::Srl,
            word: true,
            dest: dest.0 % 32,
            src1: src1.0 % 32,
            src2: src2.0 % 32,
        },
        Inst::Sra { dest, src1, src2 } => Instruction::Op {
            op: AluOp::Sra,
            word: false,
            dest: dest.0 % 32,
            src1: src1.0 % 32,
            src2: src2.0 % 32,
        },
        Inst::SraW { dest, src1, src2 } => Instruction::Op {
            op: AluOp::Sra,
            word: true,
            dest: dest.0 % 32,
            src1: src1.0 % 32,
            src2: src2.0 % 32,
        },
        Inst::Or { dest, src1, src2 } => Instruction::Op {
            op: AluOp::Or,
            word: false,
            dest: dest.0 % 32,
            src1: src1.0 % 32,
            src2: src2.0 % 32,
        },
        Inst::And { dest, src1, src2 } => Instruction::Op {
            op: AluOp::And,
            word: false,
            dest: dest.0 % 32,
            src1: src1.0 % 32,
            src2: src2.0 % 32,
        },
        Inst::Mul { dest, src1, src2 } => Instruction::Op {
            op: AluOp::Mul,
            word: false,
            dest: dest.0 % 32,
            src1: src1.0 % 32,
            src2: src2.0 % 32,
        },
        Inst::MulW { dest, src1, src2 } => Instruction::Op {
            op: AluOp::Mul,
            word: true,
            dest: dest.0 % 32,
            src1: src1.0 % 32,
            src2: src2.0 % 32,
        },
        Inst::Mulh { dest, src1, src2 } => Instruction::Op {
            op: AluOp::Mulh,
            word: false,
            dest: dest.0 % 32,
            src1: src1.0 % 32,
            src2: src2.0 % 32,
        },
        Inst::Mulhsu { dest, src1, src2 } => Instruction::Op {
            op: AluOp::Mulhsu,
            word: false,
            dest: dest.0 % 32,
            src1: src1.0 % 32,
            src2: src2.0 % 32,
        },
        Inst::Mulhu { dest, src1, src2 } => Instruction::Op {
            op: AluOp::Mulhu,
            word: false,
            dest: dest.0 % 32,
            src1: src1.0 % 32,
            src2: src2.0 % 32,
        },
        Inst::Div { dest, src1, src2 } => Instruction::Op {
            op: AluOp::Div,
            word: false,
            dest: dest.0 % 32,
            src1: src1.0 % 32,
            src2: src2.0 % 32,
        },
        Inst::DivW { dest, src1, src2 } => Instruction::Op {
            op: AluOp::Div,
            word: true,
            dest: dest.0 % 32,
            src1: src1.0 % 32,
            src2: src2.0 % 32,
        },
        Inst::Divu { dest, src1, src2 } => Instruction::Op {
            op: AluOp::Divu,
            word: false,
            dest: dest.0 % 32,
            src1: src1.0 % 32,
            src2: src2.0 % 32,
        },
        Inst::DivuW { dest, src1, src2 } => Instruction::Op {
            op: AluOp::Divu,
            word: true,
            dest: dest.0 % 32,
            src1: src1.0 % 32,
            src2: src2.0 % 32,
        },
        Inst::Rem { dest, src1, src2 } => Instruction::Op {
            op: AluOp::Rem,
            word: false,
            dest: dest.0 % 32,
            src1: src1.0 % 32,
            src2: src2.0 % 32,
        },
        Inst::RemW { dest, src1, src2 } => Instruction::Op {
            op: AluOp::Rem,
            word: true,
            dest: dest.0 % 32,
            src1: src1.0 % 32,
            src2: src2.0 % 32,
        },
        Inst::Remu { dest, src1, src2 } => Instruction::Op {
            op: AluOp::Remu,
            word: false,
            dest: dest.0 % 32,
            src1: src1.0 % 32,
            src2: src2.0 % 32,
        },
        Inst::RemuW { dest, src1, src2 } => Instruction::Op {
            op: AluOp::Remu,
            word: true,
            dest: dest.0 % 32,
            src1: src1.0 % 32,
            src2: src2.0 % 32,
        },
        Inst::Addi { imm, dest, src1 } => Instruction::OpImm {
            op: AluOp::Add,
            word: false,
            dest: dest.0 % 32,
            src1: src1.0 % 32,
            imm: imm.as_u64(),
        },
        Inst::AddiW { imm, dest, src1 } => Instruction::OpImm {
            op: AluOp::Add,
            word: true,
            dest: dest.0 % 32,
            src1: src1.0 % 32,
            imm: imm.as_u64(),
        },
        Inst::Slti { imm, dest, src1 } => Instruction::OpImm {
            op: AluOp::Slt,
            word: false,
            dest: dest.0 % 32,
            src1: src1.0 % 32,
            imm: imm.as_u64(),
        },
        Inst::Sltiu { imm, dest, src1 } => Instruction::OpImm {
            op: AluOp::Sltu,
            word: false,
            dest: dest.0 % 32,
            src1: src1.0 % 32,
            imm: imm.as_u64(),
        },
        Inst::Xori { imm, dest, src1 } => Instruction::OpImm {
            op: AluOp::Xor,
            word: false,
            dest: dest.0 % 32,
            src1: src1.0 % 32,
            imm: imm.as_u64(),
        },
        Inst::Ori { imm, dest, src1 } => Instruction::OpImm {
            op: AluOp::Or,
            word: false,
            dest: dest.0 % 32,
            src1: src1.0 % 32,
            imm: imm.as_u64(),
        },
        Inst::Andi { imm, dest, src1 } => Instruction::OpImm {
            op: AluOp::And,
            word: false,
            dest: dest.0 % 32,
            src1: src1.0 % 32,
            imm: imm.as_u64(),
        },
        Inst::Slli { imm, dest, src1 } => Instruction::OpImm {
            op: AluOp::Sll,
            word: false,
            dest: dest.0 % 32,
            src1: src1.0 % 32,
            imm: imm.as_u64(),
        },
        Inst::SlliW { imm, dest, src1 } => Instruction::OpImm {
            op: AluOp::Sll,
            word: true,
            dest: dest.0 % 32,
            src1: src1.0 % 32,
            imm: imm.as_u64(),
        },
        Inst::Srli { imm, dest, src1 } => Instruction::OpImm {
            op: AluOp::Srl,
            word: false,
            dest: dest.0 % 32,
            src1: src1.0 % 32,
            imm: imm.as_u64(),
        },
        Inst::SrliW { imm, dest, src1 } => Instruction::OpImm {
            op: AluOp::Srl,
            word: true,
            dest: dest.0 % 32,
            src1: src1.0 % 32,
            imm: imm.as_u64(),
        },
        Inst::Srai { imm, dest, src1 } => Instruction::OpImm {
            op: AluOp::Sra,
            word: false,
            dest: dest.0 % 32,
            src1: src1.0 % 32,
            imm: imm.as_u64(),
        },
        Inst::SraiW { imm, dest, src1 } => Instruction::OpImm {
            op: AluOp::Sra,
            word: true,
            dest: dest.0 % 32,
            src1: src1.0 % 32,
            imm: imm.as_u64(),
        },
        Inst::Fence { .. } => Instruction::Fence,
        Inst::Ecall => Instruction::Ecall,
        _ => Instruction::Unsupported,
    }
}

/// A decoded instruction with its length in bytes (2 when compressed, else 4).
#[derive(Debug, Clone, Copy, PartialEq, Eq, Structural)]
pub struct Decoded {
    pub inst: Instruction,
    pub len: u64,
}

/// An instruction word that does not decode.
#[derive(Debug, Clone, Copy, PartialEq, Eq, Structural)]
pub struct DecodeFault {
    pub word: u32,
}

/// What an instruction word decodes to.
pub open spec fn decode_spec(code: u32) -> Result<Decoded, DecodeFault> {
    match rv64_decoded(code) {
        Ok((i, c)) => Ok(
            Decoded {
                inst: lift_spec(i),
                len: if c == IsCompressed::Yes {
                    2
                } else {
                    4
                },
            },
        ),
        Err(_) => Err(DecodeFault { word: code }),
    }
}

/// Decodes an instruction word; a word whose low two bits are not both set
/// is a compressed (2-byte) instruction.
pub fn decode(code: u32) -> (r: Result<Decoded, DecodeFault>)
    ensures
        r == decode_spec(code),
        r is Ok ==> (r->Ok_0.len == 2 <==> code & 3 != 3),
        r is Ok ==> (r->Ok_0.len == 2 || r->Ok_0.len == 4),
{
    match decode_rv64(code) {
        Ok((i, c)) => {
            let len: u64 = match c {
                IsCompressed::Yes => 2,
                IsCompressed::No => 4,
            };
            Ok(Decoded { inst: lift(i), len })
        },
        Err(_) => Err(DecodeFault { word: code }),
    }
}

} // verus!
