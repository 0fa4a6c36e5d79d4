//! HINT instructions: valid instructions that write to `x0`, and so change no
//! architectural state, but can carry a value. `addi x0, x0, N` with `N != 0`
//! marks test case `N`.

use crate::decode::{AluOp, Instruction};
use vstd::prelude::*;

verus! {

/// A detected HINT instruction with its value.
#[derive(Debug, Clone, Copy, PartialEq, Eq, Structural)]
pub struct Hint {
    /// The immediate of the instruction (0 for register-register forms).
    pub value: i64,
    pub kind: HintKind,
}

/// The kinds of HINT instruction recognized.
#[derive(Debug, Clone, Copy, PartialEq, Eq, Structural)]
pub enum HintKind {
    Addi,
    Andi,
    Ori,
    Xori,
    Slli,
    Srli,
    Srai,
    Lui,
    /// `add x0, rs1, rs2` and the other 64-bit register-register ALU operations
    /// of the base set.
    RegReg,
}

/// The HINT kind of an immediate operation, if it has one.
pub open spec fn imm_hint_kind(op: AluOp) -> Option<HintKind> {
    match op {
        AluOp::Add => Some(HintKind::Addi),
        AluOp::And => Some(HintKind::Andi),
        AluOp::Or => Some(HintKind::Ori),
        AluOp::Xor => Some(HintKind::Xori),
        AluOp::Sll => Some(HintKind::Slli),
        AluOp::Srl => Some(HintKind::Srli),
        AluOp::Sra => Some(HintKind::Srai),
        _ => None,
    }
}

/// Whether a register-register operation counts as a HINT when it targets `x0`.
pub open spec fn is_reg_reg_hint_op(op: AluOp) -> bool {
    match op {
        AluOp::Add | AluOp::Sub | AluOp::And | AluOp::Or | AluOp::Xor | AluOp::Sll
        | AluOp::Srl | AluOp::Sra | AluOp::Slt | AluOp::Sltu => true,
        _ => false,
    }
}

/// The HINT that an instruction is, if any.
pub open spec fn hint_spec(i: Instruction) -> Option<Hint> {
    match i {
        Instruction::OpImm { op, word, dest, imm, .. } => if !word && dest == 0 {
            match imm_hint_kind(op) {
                Some(kind) => Some(Hint { value: imm as i64, kind }),
                None => None,
            }
        } else {
            None
        },
        Instruction::Lui { dest, imm } => if dest == 0 {
            Some(Hint { value: imm as i64, kind: HintKind::Lui })
        } else {
            None
        },
        Instruction::Op { op, word, dest, .. } => if !word && dest == 0 && is_reg_reg_hint_op(
            op,
        ) {
            Some(Hint { value: 0, kind: HintKind::RegReg })
        } else {
            None
        },
        _ => None,
    }
}

/// Recognizes a HINT instruction and extracts its value.
pub fn detect_hint(inst: &Instruction) -> (r: Option<Hint>)
    ensures
        r == hint_spec(*inst),
{
    match *inst {
        Instruction::OpImm { op, word, dest, imm, .. } => {
            if !word && dest == 0 {
                let kind = match op {
                    AluOp::Add => HintKind::Addi,
                    AluOp::And => HintKind::Andi,
                    AluOp::Or => HintKind::Ori,
                    AluOp::Xor => HintKind::Xori,
                    AluOp::Sll => HintKind::Slli,
                    AluOp::Srl => HintKind::Srli,
                    AluOp::Sra => HintKind::Srai,
                    _ => {
                        return None;
                    },
                };
                Some(Hint { value: imm as i64, kind })
            } else {
                None
            }
        },
        Instruction::Lui { dest, imm } => {
            if dest == 0 {
                Some(Hint { value: imm as i64, kind: HintKind::Lui })
            } else {
                None
            }
        },
        Instruction::Op { op, word, dest, .. } => {
            let reg_reg = match op {
                AluOp::Add | AluOp::Sub | AluOp::And | AluOp::Or | AluOp::Xor | AluOp::Sll
                | AluOp::Srl | AluOp::Sra | AluOp::Slt | AluOp::Sltu => true,
                _ => false,
            };
            if !word && dest == 0 && reg_reg {
                Some(Hint { value: 0, kind: HintKind::RegReg })
            } else {
                None
            }
        },
        _ => None,
    }
}

/// The test-case number that an instruction marks, if it is `addi x0, x0, N`
/// with `N != 0`.
pub open spec fn test_marker_spec(i: Instruction) -> Option<i64> {
    match i {
        Instruction::OpImm { op: AluOp::Add, word: false, dest: 0, src1: 0, imm } => if imm as i64
            != 0 {
            Some(imm as i64)
        } else {
            None
        },
        _ => None,
    }
}

/// Recognizes a test-case marker, a stricter form of HINT that also reads `x0`.
pub fn detect_test_marker(inst: &Instruction) -> (r: Option<i64>)
    ensures
        r == test_marker_spec(*inst),
        r is Some ==> hint_spec(*inst) == Some(Hint { value: r->0, kind: HintKind::Addi }),
{
    match *inst {
        Instruction::OpImm { op: AluOp::Add, word: false, dest: 0, src1: 0, imm } => {
            if imm as i64 != 0 {
                Some(imm as i64)
            } else {
                None
            }
        },
        _ => None,
    }
}

} // verus!
