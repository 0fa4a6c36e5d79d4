use crate::decode::{AluOp, BranchOp, Decoded, Instruction, LoadOp};
use crate::mem::{at, load_spec, page_of, paging_of, store_bytes, translate_spec, Mem, Paging};
use vstd::prelude::*;

verus! {

/// Register number of `a7`, which selects the system call.
pub const REG_A7: u8 = 17;

/// The `a7` value of the exit system call.
pub const SYS_EXIT: u64 = 93;

/// The general-purpose register file: 32 registers of 64 bits, where
/// register 0 reads as zero and ignores writes.
#[derive(Debug, Clone, Copy)]
pub struct Regs {
    pub x: [u64; 32],
}

impl View for Regs {
    type V = Seq<u64>;

    open spec fn view(&self) -> Seq<u64> {
        self.x@
    }
}

/// Register `r` (taken modulo 32) of register values `s`; register 0 is zero.
pub open spec fn reg_spec(s: Seq<u64>, r: u8) -> u64 {
    if r % 32 == 0 {
        0
    } else {
        s[(r % 32) as int]
    }
}

/// `s` after writing `v` to register `r` (taken modulo 32); a write to
/// register 0 changes nothing.
pub open spec fn set_reg_spec(s: Seq<u64>, r: u8, v: u64) -> Seq<u64> {
    if r % 32 == 0 {
        s
    } else {
        s.update((r % 32) as int, v)
    }
}

impl Regs {
    /// Register 0 holds zero.
    pub open spec fn wf(&self) -> bool {
        self@[0] == 0
    }

    /// All registers zero.
    pub fn new() -> (r: Self)
        ensures
            r.wf(),
            r@ == Seq::new(32, |i: int| 0u64),
    {
        let r = Regs { x: [0u64; 32] };
        assert(r@ =~= Seq::new(32, |i: int| 0u64));
        r
    }

    /// Reads register `r` (modulo 32).
    pub fn get(&self, r: u8) -> (v: u64)
        requires
            self.wf(),
        ensures
            v == reg_spec(self@, r),
            r % 32 == 0 ==> v == 0,
    {
        let i = (r % 32) as usize;
        if i == 0 {
            0
        } else {
            self.x[i]
        }
    }

    /// Writes `v` to register `r` (modulo 32); a write to register 0 is dropped.
    pub fn set(&mut self, r: u8, v: u64)
        requires
            old(self).wf(),
        ensures
            final(self).wf(),
            final(self)@ == set_reg_spec(old(self)@, r, v),
    {
        let i = (r % 32) as usize;
        if i != 0 {
            self.x[i] = v;
        }
    }
}

/// A write to register 0 is never observed: it reads as zero afterwards.
pub proof fn lemma_zero_register_stays_zero(s: Seq<u64>, v: u64, r: u8)
    requires
        r % 32 == 0,
    ensures
        reg_spec(set_reg_spec(s, r, v), 0) == 0,
        reg_spec(set_reg_spec(s, r, v), r) == 0,
{
}

/// Result of a 64-bit register-register or register-immediate operation.
pub open spec fn alu64_spec(op: AluOp, a: u64, b: u64) -> u64 {
    match op {
        AluOp::Add => a.wrapping_add(b),
        AluOp::Sub => a.wrapping_sub(b),
        AluOp::Sll => a << (b & 63),
        AluOp::Slt => if (a as i64) < (b as i64) {
            1
        } else {
            0
        },
        AluOp::Sltu => if a < b {
            1
        } else {
            0
        },
        AluOp::Xor => a ^ b,
        AluOp::Srl => a >> (b & 63),
        AluOp::Sra => ((a as i64) >> (b & 63)) as u64,
        AluOp::Or => a | b,
        AluOp::And => a & b,
        AluOp::Mul => a.wrapping_mul(b),
        AluOp::Mulh => ((a as i64 * b as i64) / 0x1_0000_0000_0000_0000int) as u64,
        AluOp::Mulhsu => ((a as i64 * b) / 0x1_0000_0000_0000_0000int) as u64,
        AluOp::Mulhu => ((a * b) / 0x1_0000_0000_0000_0000int) as u64,
        AluOp::Div => if b == 0 {
            u64::MAX
        } else {
            match (a as i64).checked_div(b as i64) {
                Some(q) => q as u64,
                None => a,
            }
        },
        AluOp::Divu => if b == 0 {
            u64::MAX
        } else {
            a / b
        },
        AluOp::Rem => if b == 0 {
            u64::MAX
        } else {
            match (a as i64).checked_rem(b as i64) {
                Some(q) => q as u64,
                None => 0,
            }
        },
        AluOp::Remu => if b == 0 {
            u64::MAX
        } else {
            a % b
        },
    }
}

/// Result of a 32-bit (W) operation on the low halves of `a` and `b`,
/// sign-extended to 64 bits.
pub open spec fn alu32_spec(op: AluOp, a: u64, b: u64) -> u64 {
    let x = a as u32;
    let y = b as u32;
    let r: u32 = match op {
        AluOp::Add => x.wrapping_add(y),
        AluOp::Sub => x.wrapping_sub(y),
        AluOp::Sll => x << (y & 31),
        AluOp::Srl => x >> (y & 31),
        AluOp::Sra => ((x as i32) >> (y & 31)) as u32,
        AluOp::Mul => x.wrapping_mul(y),
        AluOp::Div => if y == 0 {
            u32::MAX
        } else {
            match (x as i32).checked_div(y as i32) {
                Some(q) => q as u32,
                None => x,
            }
        },
        AluOp::Divu => if y == 0 {
            u32::MAX
        } else {
            x / y
        },
        AluOp::Rem => if y == 0 {
            u32::MAX
        } else {
            match (x as i32).checked_rem(y as i32) {
                Some(q) => q as u32,
                None => 0,
            }
        },
        AluOp::Remu => if y == 0 {
            u32::MAX
        } else {
            x % y
        },
        _ => alu64_spec(op, a, b) as u32,
    };
    r as i32 as i64 as u64
}

pub open spec fn alu_spec(op: AluOp, word: bool, a: u64, b: u64) -> u64 {
    if word {
        alu32_spec(op, a, b)
    } else {
        alu64_spec(op, a, b)
    }
}

/// Computes a 64-bit operation.
pub fn alu64(op: AluOp, a: u64, b: u64) -> (r: u64)
    ensures
        r == alu64_spec(op, a, b),
{
    match op {
        AluOp::Add => a.wrapping_add(b),
        AluOp::Sub => a.wrapping_sub(b),
        AluOp::Sll => {
            assert(b & 63 < 64) by (bit_vector);
            a << (b & 63)
        },
        AluOp::Slt => if (a as i64) < (b as i64) {
            1
        } else {
            0
        },
        AluOp::Sltu => if a < b {
            1
        } else {
            0
        },
        AluOp::Xor => a ^ b,
        AluOp::Srl => {
            assert(b & 63 < 64) by (bit_vector);
            a >> (b & 63)
        },
        AluOp::Sra => {
            assert(b & 63 < 64) by (bit_vector);
            ((a as i64) >> (b & 63)) as u64
        },
        AluOp::Or => a | b,
        AluOp::And => a & b,
        AluOp::Mul => a.wrapping_mul(b),
        AluOp::Mulh => {
            let x = a as i64 as i128;
            let y = b as i64 as i128;
            assert(-0x8000_0000_0000_0000 <= x <= 0x7fff_ffff_ffff_ffff);
            assert(-0x4000_0000_0000_0000_0000_0000_0000_0000 <= x * y
                <= 0x4000_0000_0000_0000_0000_0000_0000_0000) by (nonlinear_arith)
                requires
                    -0x8000_0000_0000_0000 <= x <= 0x7fff_ffff_ffff_ffff,
                    -0x8000_0000_0000_0000 <= y <= 0x7fff_ffff_ffff_ffff,
            ;
            match (x * y).checked_div_euclid(0x1_0000_0000_0000_0000i128) {
                Some(q) => q as u64,
                None => 0,
            }
        },
        AluOp::Mulhsu => {
            let x = a as i64 as i128;
            let y = b as i128;
            assert(-0x8000_0000_0000_0000_0000_0000_0000_0000 < x * y
                < 0x8000_0000_0000_0000_0000_0000_0000_0000) by (nonlinear_arith)
                requires
                    -0x8000_0000_0000_0000 <= x <= 0x7fff_ffff_ffff_ffff,
                    0 <= y <= 0xffff_ffff_ffff_ffff,
            ;
            match (x * y).checked_div_euclid(0x1_0000_0000_0000_0000i128) {
                Some(q) => q as u64,
                None => 0,
            }
        },
        AluOp::Mulhu => {
            let x = a as u128;
            let y = b as u128;
            assert(x * y <= 0xffff_ffff_ffff_ffff_ffff_ffff_ffff_ffff) by (nonlinear_arith)
                requires
                    x <= 0xffff_ffff_ffff_ffff,
                    y <= 0xffff_ffff_ffff_ffff,
            ;
            ((x * y) / 0x1_0000_0000_0000_0000u128) as u64
        },
        AluOp::Div => if b == 0 {
            u64::MAX
        } else {
            match (a as i64).checked_div(b as i64) {
                Some(q) => q as u64,
                None => a,
            }
        },
        AluOp::Divu => if b == 0 {
            u64::MAX
        } else {
            a / b
        },
        AluOp::Rem => if b == 0 {
            u64::MAX
        } else {
            match (a as i64).checked_rem(b as i64) {
                Some(q) => q as u64,
                None => 0,
            }
        },
        AluOp::Remu => if b == 0 {
            u64::MAX
        } else {
            a % b
        },
    }
}

/// Computes a 32-bit (W) operation.
pub fn alu32(op: AluOp, a: u64, b: u64) -> (r: u64)
    ensures
        r == alu32_spec(op, a, b),
{
    let x = a as u32;
    let y = b as u32;
    let r: u32 = match op {
        AluOp::Add => x.wrapping_add(y),
        AluOp::Sub => x.wrapping_sub(y),
        AluOp::Sll => {
            assert(y & 31 < 32) by (bit_vector);
            x << (y & 31)
        },
        AluOp::Srl => {
            assert(y & 31 < 32) by (bit_vector);
            x >> (y & 31)
        },
        AluOp::Sra => {
            assert(y & 31 < 32) by (bit_vector);
            ((x as i32) >> (y & 31)) as u32
        },
        AluOp::Mul => x.wrapping_mul(y),
        AluOp::Div => if y == 0 {
            u32::MAX
        } else {
            match (x as i32).checked_div(y as i32) {
                Some(q) => q as u32,
                None => x,
            }
        },
        AluOp::Divu => if y == 0 {
            u32::MAX
        } else {
            x / y
        },
        AluOp::Rem => if y == 0 {
            u32::MAX
        } else {
            match (x as i32).checked_rem(y as i32) {
                Some(q) => q as u32,
                None => 0,
            }
        },
        AluOp::Remu => if y == 0 {
            u32::MAX
        } else {
            x % y
        },
        _ => alu64(op, a, b) as u32,
    };
    r as i32 as i64 as u64
}

/// Computes a 64-bit or a 32-bit (W) operation.
pub fn alu(op: AluOp, word: bool, a: u64, b: u64) -> (r: u64)
    ensures
        r == alu_spec(op, word, a, b),
{
    if word {
        alu32(op, a, b)
    } else {
        alu64(op, a, b)
    }
}

/// Whether a conditional branch is taken.
pub open spec fn branch_spec(op: BranchOp, a: u64, b: u64) -> bool {
    match op {
        BranchOp::Eq => a == b,
        BranchOp::Ne => a != b,
        BranchOp::Lt => (a as i64) < (b as i64),
        BranchOp::Ge => (a as i64) >= (b as i64),
        BranchOp::Ltu => a < b,
        BranchOp::Geu => a >= b,
    }
}

pub fn branch_taken(op: BranchOp, a: u64, b: u64) -> (r: bool)
    ensures
        r == branch_spec(op, a, b),
{
    match op {
        BranchOp::Eq => a == b,
        BranchOp::Ne => a != b,
        BranchOp::Lt => (a as i64) < (b as i64),
        BranchOp::Ge => (a as i64) >= (b as i64),
        BranchOp::Ltu => a < b,
        BranchOp::Geu => a >= b,
    }
}

/// Width in bytes of a load.
pub open spec fn load_width(op: LoadOp) -> u64 {
    match op {
        LoadOp::Lb | LoadOp::Lbu => 1,
        LoadOp::Lh | LoadOp::Lhu => 2,
        LoadOp::Lw | LoadOp::Lwu => 4,
        LoadOp::Ld => 8,
    }
}

/// The register value of a load that read the little-endian number `v`:
/// sign-extended for `Lb`, `Lh`, `Lw`, else as read.
pub open spec fn extend_spec(op: LoadOp, v: u64) -> u64 {
    match op {
        LoadOp::Lb => v as u8 as i8 as i64 as u64,
        LoadOp::Lh => v as u16 as i16 as i64 as u64,
        LoadOp::Lw => v as u32 as i32 as i64 as u64,
        _ => v,
    }
}

/// Errors that end a run.
#[derive(Debug, Clone, Copy, PartialEq, Eq, Structural)]
pub enum VmError {
    /// The word at `pc` does not decode.
    Decode { word: u32, pc: u64 },
    /// The instruction at `pc` decodes but is outside the supported set.
    UnknownOpcode { pc: u64 },
    /// A memory access needed the table translator while a base address is unset.
    TranslationMisconfigured { pc: u64 },
}

/// What executing one instruction leads to.
#[derive(Debug, Clone, Copy, PartialEq, Eq, Structural)]
pub enum Outcome {
    /// Go on at the given program counter.
    Continue(u64),
    /// The guest asked to exit (`ecall` with `a7 == 93`).
    Exit,
    /// The run fails.
    Fault(VmError),
}

/// The effect of executing `d`, at `pc`, on registers `r` and memory `m`
/// with translator `p`: the new registers, the new memory, and the outcome.
/// On a fault registers and memory are unchanged.
#[verifier::opaque]
pub open spec fn exec_spec(r: Seq<u64>, m: Map<u64, u8>, p: Paging, pc: u64, d: Decoded) -> (
    Seq<u64>,
    Map<u64, u8>,
    Outcome,
) {
    let next = pc.wrapping_add(d.len);
    match d.inst {
        Instruction::Lui { dest, imm } => (set_reg_spec(r, dest, imm), m, Outcome::Continue(next)),
        Instruction::Auipc { dest, imm } => (
            set_reg_spec(r, dest, imm.wrapping_add(pc)),
            m,
            Outcome::Continue(next),
        ),
        Instruction::Jal { dest, offset } => (
            set_reg_spec(r, dest, next),
            m,
            Outcome::Continue(pc.wrapping_add(offset) & !1u64),
        ),
        Instruction::Jalr { dest, base, offset } => (
            set_reg_spec(r, dest, next),
            m,
            Outcome::Continue(reg_spec(r, base).wrapping_add(offset) & !1u64),
        ),
        Instruction::Branch { op, src1, src2, offset } => (
            r,
            m,
            Outcome::Continue(
                if branch_spec(op, reg_spec(r, src1), reg_spec(r, src2)) {
                    pc.wrapping_add(offset)
                } else {
                    next
                },
            ),
        ),
        Instruction::Load { op, dest, base, offset } => match translate_spec(
            m,
            p,
            reg_spec(r, base).wrapping_add(offset),
        ) {
            Ok(a) => (
                set_reg_spec(
                    r,
                    dest,
                    extend_spec(op, load_spec(m, a, load_width(op) as nat)),
                ),
                m,
                Outcome::Continue(next),
            ),
            Err(_) => (r, m, Outcome::Fault(VmError::TranslationMisconfigured { pc })),
        },
        Instruction::Store { width, src, base, offset } => match translate_spec(
            m,
            p,
            reg_spec(r, base).wrapping_add(offset),
        ) {
            Ok(a) => (r, store_bytes(m, a, width as nat, reg_spec(r, src)), Outcome::Continue(next)),
            Err(_) => (r, m, Outcome::Fault(VmError::TranslationMisconfigured { pc })),
        },
        Instruction::Op { op, word, dest, src1, src2 } => (
            set_reg_spec(r, dest, alu_spec(op, word, reg_spec(r, src1), reg_spec(r, src2))),
            m,
            Outcome::Continue(next),
        ),
        Instruction::OpImm { op, word, dest, src1, imm } => (
            set_reg_spec(r, dest, alu_spec(op, word, reg_spec(r, src1), imm)),
            m,
            Outcome::Continue(next),
        ),
        Instruction::Fence => (r, m, Outcome::Continue(next)),
        Instruction::Ecall => (
            r,
            m,
            if reg_spec(r, REG_A7) == SYS_EXIT {
                Outcome::Exit
            } else {
                Outcome::Continue(next)
            },
        ),
        Instruction::Unsupported => (r, m, Outcome::Fault(VmError::UnknownOpcode { pc })),
    }
}

/// A decoded instruction whose fields are in range.
pub open spec fn decoded_wf(d: Decoded) -> bool {
    &&& (d.len == 2 || d.len == 4)
    &&& (d.inst matches Instruction::Store { width, .. } ==> (width == 1 || width == 2 || width
        == 4 || width == 8))
}

/// After `d` executes on registers `r` and memory `m` with translator `p`,
/// the pages in `pages` include every page that a store wrote, also when the
/// store crosses into the next page.
pub open spec fn store_pages_allocated(
    r: Seq<u64>,
    m: Map<u64, u8>,
    p: Paging,
    d: Decoded,
    pages: Set<u64>,
) -> bool {
    match d.inst {
        Instruction::Store { width, base, offset, .. } => match translate_spec(
            m,
            p,
            reg_spec(r, base).wrapping_add(offset),
        ) {
            Ok(a) => forall|i: int| 0 <= i < width ==> pages.contains(#[trigger] page_of(at(a, i))),
            Err(_) => true,
        },
        _ => true,
    }
}

/// Executes one decoded instruction at `pc`.
pub fn execute(mem: &mut Mem, regs: &mut Regs, pc: u64, d: Decoded) -> (o: Outcome)
    requires
        old(mem).wf(),
        old(regs).wf(),
        decoded_wf(d),
    ensures
        final(mem).wf(),
        final(regs).wf(),
        paging_of(*final(mem)) == paging_of(*old(mem)),
        old(mem).allocated_pages().subset_of(final(mem).allocated_pages()),
        store_pages_allocated(
            old(regs)@,
            old(mem)@,
            paging_of(*old(mem)),
            d,
            final(mem).allocated_pages(),
        ),
        (final(regs)@, final(mem)@, o) == exec_spec(
            old(regs)@,
            old(mem)@,
            paging_of(*old(mem)),
            pc,
            d,
        ),
{
    proof {
        reveal(exec_spec);
    }
    let next = pc.wrapping_add(d.len);
    match d.inst {
        Instruction::Lui { dest, imm } => {
            regs.set(dest, imm);
            Outcome::Continue(next)
        },
        Instruction::Auipc { dest, imm } => {
            regs.set(dest, imm.wrapping_add(pc));
            Outcome::Continue(next)
        },
        Instruction::Jal { dest, offset } => {
            regs.set(dest, next);
            Outcome::Continue(pc.wrapping_add(offset) & !1u64)
        },
        Instruction::Jalr { dest, base, offset } => {
            let target = regs.get(base).wrapping_add(offset) & !1u64;
            regs.set(dest, next);
            Outcome::Continue(target)
        },
        Instruction::Branch { op, src1, src2, offset } => {
            if branch_taken(op, regs.get(src1), regs.get(src2)) {
                Outcome::Continue(pc.wrapping_add(offset))
            } else {
                Outcome::Continue(next)
            }
        },
        Instruction::Load { op, dest, base, offset } => {
            match mem.translate(regs.get(base).wrapping_add(offset)) {
                Ok(a) => {
                    let width: u64 = match op {
                        LoadOp::Lb | LoadOp::Lbu => 1,
                        LoadOp::Lh | LoadOp::Lhu => 2,
                        LoadOp::Lw | LoadOp::Lwu => 4,
                        LoadOp::Ld => 8,
                    };
                    let v = mem.load(a, width);
                    let x: u64 = match op {
                        LoadOp::Lb => v as u8 as i8 as i64 as u64,
                        LoadOp::Lh => v as u16 as i16 as i64 as u64,
                        LoadOp::Lw => v as u32 as i32 as i64 as u64,
                        _ => v,
                    };
                    regs.set(dest, x);
                    Outcome::Continue(next)
                },
                Err(_) => Outcome::Fault(VmError::TranslationMisconfigured { pc }),
            }
        },
        Instruction::Store { width, src, base, offset } => {
            match mem.translate(regs.get(base).wrapping_add(offset)) {
                Ok(a) => {
                    let v = regs.get(src);
                    mem.store(a, width, v);
                    Outcome::Continue(next)
                },
                Err(_) => Outcome::Fault(VmError::TranslationMisconfigured { pc }),
            }
        },
        Instruction::Op { op, word, dest, src1, src2 } => {
            let v = alu(op, word, regs.get(src1), regs.get(src2));
            regs.set(dest, v);
            Outcome::Continue(next)
        },
        Instruction::OpImm { op, word, dest, src1, imm } => {
            let v = alu(op, word, regs.get(src1), imm);
            regs.set(dest, v);
            Outcome::Continue(next)
        },
        Instruction::Fence => Outcome::Continue(next),
        Instruction::Ecall => {
            if regs.get(REG_A7) == SYS_EXIT {
                Outcome::Exit
            } else {
                Outcome::Continue(next)
            }
        },
        Instruction::Unsupported => Outcome::Fault(VmError::UnknownOpcode { pc }),
    }
}

/// Shift counts are taken modulo 64 for 64-bit shifts and modulo 32 for the
/// 32-bit (W) shifts: a larger count shifts by its low bits only.
pub proof fn lemma_shift_count_masked(a: u64, b: u64)
    ensures
        alu64_spec(AluOp::Sll, a, b) == alu64_spec(AluOp::Sll, a, b % 64),
        alu64_spec(AluOp::Srl, a, b) == alu64_spec(AluOp::Srl, a, b % 64),
        alu64_spec(AluOp::Sra, a, b) == alu64_spec(AluOp::Sra, a, b % 64),
        alu32_spec(AluOp::Sll, a, b) == alu32_spec(AluOp::Sll, a, b % 32),
        alu32_spec(AluOp::Srl, a, b) == alu32_spec(AluOp::Srl, a, b % 32),
        alu32_spec(AluOp::Sra, a, b) == alu32_spec(AluOp::Sra, a, b % 32),
{
    assert(b & 63 == (b % 64) & 63) by (bit_vector);
    assert((b as u32) & 31 == ((b % 32) as u32) & 31) by (bit_vector);
}

/// Division and remainder by zero give all ones, in the 64-bit and in the
/// 32-bit (W) forms.
pub proof fn lemma_divide_by_zero(a: u64, b: u64)
    ensures
        alu64_spec(AluOp::Div, a, 0) == u64::MAX,
        alu64_spec(AluOp::Divu, a, 0) == u64::MAX,
        alu64_spec(AluOp::Rem, a, 0) == u64::MAX,
        alu64_spec(AluOp::Remu, a, 0) == u64::MAX,
        b as u32 == 0 ==> alu32_spec(AluOp::Div, a, b) == u64::MAX,
        b as u32 == 0 ==> alu32_spec(AluOp::Divu, a, b) == u64::MAX,
        b as u32 == 0 ==> alu32_spec(AluOp::Rem, a, b) == u64::MAX,
        b as u32 == 0 ==> alu32_spec(AluOp::Remu, a, b) == u64::MAX,
{
    assert(u32::MAX as i32 as i64 as u64 == u64::MAX) by (bit_vector);
}

/// An indirect jump (JALR) always lands on an even address: the low bit of
/// the computed target is cleared.
pub proof fn lemma_jalr_target_even(r: Seq<u64>, m: Map<u64, u8>, p: Paging, pc: u64, d: Decoded)
    requires
        d.inst is Jalr,
    ensures
        exec_spec(r, m, p, pc, d).2 is Continue,
        exec_spec(r, m, p, pc, d).2->Continue_0 & 1 == 0,
        exec_spec(r, m, p, pc, d).2->Continue_0 == reg_spec(r, d.inst->Jalr_base).wrapping_add(
            d.inst->Jalr_offset,
        ) & !1u64,
{
    reveal(exec_spec);
    let t = reg_spec(r, d.inst->Jalr_base).wrapping_add(d.inst->Jalr_offset);
    assert((t & !1u64) & 1 == 0) by (bit_vector);
}

} // verus!
