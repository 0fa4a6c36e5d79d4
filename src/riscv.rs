//! Lowering of guest instructions into host script, and the trace renderer
//! that chains them: every address of a trace becomes a labelled loop, a
//! jump back to an address already rendered becomes `continue` to its label,
//! and an address cached elsewhere becomes a continuation into the cache.

use crate::decode::{decode, decode_spec, AluOp, BranchOp, DecodeFault, Decoded, Instruction, LoadOp};
use crate::flate::Flate;
use crate::hint::{detect_test_marker, test_marker_spec};
use crate::jit::{successors_spec, Heat};
use crate::template::{CoreJS, Flags};
use crate::text::{decimal, hex, push_decimal, push_hex, push_signed_decimal, signed_decimal};
use std::collections::BTreeMap;
use vstd::prelude::*;

verus! {

broadcast use vstd::laws_cmp::group_laws_cmp, vstd::std_specs::btree::group_btree_axioms;

/// What the renderer reads of the guest: instruction words, and whether an
/// address already has compiled code of its own.
pub trait JitCtx {
    spec fn ctx_wf(&self) -> bool;

    /// The instruction word at `a`.
    spec fn word_spec(&self, a: u64) -> u32;

    /// Whether compiled code exists for `a`.
    spec fn heat_spec(&self, a: u64) -> Heat;

    fn word(&self, a: u64) -> (r: u32)
        requires
            self.ctx_wf(),
        ensures
            r == self.word_spec(a),
    ;

    fn heat(&self, a: u64) -> (r: Heat)
        requires
            self.ctx_wf(),
        ensures
            r == self.heat_spec(a),
    ;
}

/// Context of a WebAssembly back end; it reads nothing yet.
pub trait WasmJitCtx {}

/// A loop label of the trace being rendered: its identifier and the nesting
/// depth at which its loop opens.
#[derive(Clone, Debug)]
pub struct Label {
    pub ident_name: String,
    pub index: u32,
}

/// Labels of the loops enclosing the point being rendered, by address.
pub struct Labels(pub BTreeMap<u64, Label>);

/// The label identifiers by address.
pub open spec fn label_names(l: Map<u64, Label>) -> Map<u64, Seq<char>> {
    l.map_values(|x: Label| x.ident_name@)
}

/// The identifiers bound to the helpers `max64`, `max32`, `signed`,
/// `unsigned` and `data`, in that order.
pub type NameViews = (Seq<char>, Seq<char>, Seq<char>, Seq<char>, Seq<char>);

/// The identifiers that `f` binds the helpers to.
pub open spec fn flate_names<F: Flate>(f: &F) -> NameViews {
    (
        f.flate_spec("max64"@),
        f.flate_spec("max32"@),
        f.flate_spec("signed"@),
        f.flate_spec("unsigned"@),
        f.flate_spec("data"@),
    )
}

/// The identifiers that the helper names are bound to.
pub struct Names {
    pub max64: String,
    pub max32: String,
    pub signed: String,
    pub unsigned: String,
    pub data: String,
}

impl View for Names {
    type V = NameViews;

    open spec fn view(&self) -> NameViews {
        (self.max64@, self.max32@, self.signed@, self.unsigned@, self.data@)
    }
}

impl Names {
    /// The identifiers that `f` binds the helpers to.
    pub fn of<F: Flate>(f: &F) -> (r: Names)
        ensures
            r@ == flate_names(f),
    {
        Names {
            max64: f.flate("max64"),
            max32: f.flate("max32"),
            signed: f.flate("signed"),
            unsigned: f.flate("unsigned"),
            data: f.flate("data"),
        }
    }
}

/// What rendering depends on besides the address.
pub struct Params<'a, C: JitCtx, F: Flate> {
    pub react: &'a C,
    pub flate: &'a F,
    /// The address the trace is rooted at.
    pub root: u64,
    pub flags: Flags,
}

/// Script for a 64-bit register operation on operand expressions `a` and `b`,
/// given the identifiers of the all-ones 64- and 32-bit masks and of the signed
/// and unsigned conversions. Shift counts are masked to 6 bits; division by
/// zero gives all ones.
pub open spec fn alu64_js(
    op: AluOp,
    a: Seq<char>,
    b: Seq<char>,
    m64: Seq<char>,
    m32: Seq<char>,
    sg: Seq<char>,
    us: Seq<char>,
) -> Seq<char> {
    match op {
        AluOp::Add => "("@ + a + "+"@ + b + ")&"@ + m64,
        AluOp::Sub => "("@ + a + "-"@ + b + ")&"@ + m64,
        AluOp::Sll => "("@ + a + "<<("@ + b + "&63n))&"@ + m64,
        AluOp::Slt => "("@ + sg + "("@ + a + ")<"@ + sg + "("@ + b + "))?1n:0n"@,
        AluOp::Sltu => "("@ + a + "<"@ + b + ")?1n:0n"@,
        AluOp::Xor => "("@ + a + "^"@ + b + ")&"@ + m64,
        AluOp::Srl => "("@ + a + ">>("@ + b + "&63n))&"@ + m64,
        AluOp::Sra => us + "("@ + sg + "("@ + a + ")>>("@ + b + "&63n))"@,
        AluOp::Or => "("@ + a + "|"@ + b + ")&"@ + m64,
        AluOp::And => "("@ + a + "&"@ + b + ")&"@ + m64,
        AluOp::Mul => "("@ + a + "*"@ + b + ")&"@ + m64,
        AluOp::Mulh => us + "(("@ + sg + "("@ + a + ")*"@ + sg + "("@ + b + "))>>64n)"@,
        AluOp::Mulhsu => us + "(("@ + sg + "("@ + a + ")*"@ + b + ")>>64n)"@,
        AluOp::Mulhu => "(("@ + a + "*"@ + b + ")>>64n)&"@ + m64,
        AluOp::Div => "("@ + b + "==0n?"@ + m64 + ":"@ + us + "("@ + sg + "("@ + a + ")/"@ + sg + "("@ + b + ")))"@,
        AluOp::Divu => "("@ + b + "==0n?"@ + m64 + ":("@ + a + "/"@ + b + ")&"@ + m64 + ")"@,
        AluOp::Rem => "("@ + b + "==0n?"@ + m64 + ":"@ + us + "("@ + sg + "("@ + a + ")%"@ + sg + "("@ + b + ")))"@,
        AluOp::Remu => "("@ + b + "==0n?"@ + m64 + ":("@ + a + "%"@ + b + ")&"@ + m64 + ")"@,
    }
}

/// Script for a 32-bit (W) register operation: computed on the low halves and
/// sign-extended; shift counts are masked to 5 bits; division by zero gives all ones.
pub open spec fn alu32_js(
    op: AluOp,
    a: Seq<char>,
    b: Seq<char>,
    m64: Seq<char>,
    m32: Seq<char>,
    sg: Seq<char>,
    us: Seq<char>,
) -> Seq<char> {
    match op {
        AluOp::Add => us + "(BigInt.asIntN(32,("@ + a + "&"@ + m32 + ")+("@ + b + "&"@ + m32 + ")))"@,
        AluOp::Sub => us + "(BigInt.asIntN(32,("@ + a + "&"@ + m32 + ")-("@ + b + "&"@ + m32 + ")))"@,
        AluOp::Sll => us + "(BigInt.asIntN(32,("@ + a + "&"@ + m32 + ")<<("@ + b + "&31n)))"@,
        AluOp::Srl => us + "(BigInt.asIntN(32,("@ + a + "&"@ + m32 + ")>>("@ + b + "&31n)))"@,
        AluOp::Sra => us + "(BigInt.asIntN(32,BigInt.asIntN(32,"@ + a + ")>>("@ + b + "&31n)))"@,
        AluOp::Mul => us + "(BigInt.asIntN(32,("@ + a + "&"@ + m32 + ")*("@ + b + "&"@ + m32 + ")))"@,
        AluOp::Div => "(("@ + b + "&"@ + m32 + ")==0n?"@ + m64 + ":"@ + us + "(BigInt.asIntN(32,BigInt.asIntN(32,"@ + a + ")/BigInt.asIntN(32,"@ + b + "))))"@,
        AluOp::Divu => "(("@ + b + "&"@ + m32 + ")==0n?"@ + m64 + ":"@ + us + "(BigInt.asIntN(32,("@ + a + "&"@ + m32 + ")/("@ + b + "&"@ + m32 + "))))"@,
        AluOp::Rem => "(("@ + b + "&"@ + m32 + ")==0n?"@ + m64 + ":"@ + us + "(BigInt.asIntN(32,BigInt.asIntN(32,"@ + a + ")%BigInt.asIntN(32,"@ + b + "))))"@,
        AluOp::Remu => "(("@ + b + "&"@ + m32 + ")==0n?"@ + m64 + ":"@ + us + "(BigInt.asIntN(32,("@ + a + "&"@ + m32 + ")%("@ + b + "&"@ + m32 + "))))"@,
        _ => alu64_js(op, a, b, m64, m32, sg, us),
    }
}

fn alu64_text(
    op: AluOp,
    a: &str,
    b: &str,
    m64: &str,
    m32: &str,
    sg: &str,
    us: &str,
) -> (r: String)
    ensures
        r@ == alu64_js(op, a@, b@, m64@, m32@, sg@, us@),
{
    let mut s = String::new();
    match op {
        AluOp::Add => {
            s.append("(");
            s.append(a);
            s.append("+");
            s.append(b);
            s.append(")&");
            s.append(m64);
        },
        AluOp::Sub => {
            s.append("(");
            s.append(a);
            s.append("-");
            s.append(b);
            s.append(")&");
            s.append(m64);
        },
        AluOp::Sll => {
            s.append("(");
            s.append(a);
            s.append("<<(");
            s.append(b);
            s.append("&63n))&");
            s.append(m64);
        },
        AluOp::Slt => {
            s.append("(");
            s.append(sg);
            s.append("(");
            s.append(a);
            s.append(")<");
            s.append(sg);
            s.append("(");
            s.append(b);
            s.append("))?1n:0n");
        },
        AluOp::Sltu => {
            s.append("(");
            s.append(a);
            s.append("<");
            s.append(b);
            s.append(")?1n:0n");
        },
        AluOp::Xor => {
            s.append("(");
            s.append(a);
            s.append("^");
            s.append(b);
            s.append(")&");
            s.append(m64);
        },
        AluOp::Srl => {
            s.append("(");
            s.append(a);
            s.append(">>(");
            s.append(b);
            s.append("&63n))&");
            s.append(m64);
        },
        AluOp::Sra => {
            s.append(us);
            s.append("(");
            s.append(sg);
            s.append("(");
            s.append(a);
            s.append(")>>(");
            s.append(b);
            s.append("&63n))");
        },
        AluOp::Or => {
            s.append("(");
            s.append(a);
            s.append("|");
            s.append(b);
            s.append(")&");
            s.append(m64);
        },
        AluOp::And => {
            s.append("(");
            s.append(a);
            s.append("&");
            s.append(b);
            s.append(")&");
            s.append(m64);
        },
        AluOp::Mul => {
            s.append("(");
            s.append(a);
            s.append("*");
            s.append(b);
            s.append(")&");
            s.append(m64);
        },
        AluOp::Mulh => {
            s.append(us);
            s.append("((");
            s.append(sg);
            s.append("(");
            s.append(a);
            s.append(")*");
            s.append(sg);
            s.append("(");
            s.append(b);
            s.append("))>>64n)");
        },
        AluOp::Mulhsu => {
            s.append(us);
            s.append("((");
            s.append(sg);
            s.append("(");
            s.append(a);
            s.append(")*");
            s.append(b);
            s.append(")>>64n)");
        },
        AluOp::Mulhu => {
            s.append("((");
            s.append(a);
            s.append("*");
            s.append(b);
            s.append(")>>64n)&");
            s.append(m64);
        },
        AluOp::Div => {
            s.append("(");
            s.append(b);
            s.append("==0n?");
            s.append(m64);
            s.append(":");
            s.append(us);
            s.append("(");
            s.append(sg);
            s.append("(");
            s.append(a);
            s.append(")/");
            s.append(sg);
            s.append("(");
            s.append(b);
            s.append(")))");
        },
        AluOp::Divu => {
            s.append("(");
            s.append(b);
            s.append("==0n?");
            s.append(m64);
            s.append(":(");
            s.append(a);
            s.append("/");
            s.append(b);
            s.append(")&");
            s.append(m64);
            s.append(")");
        },
        AluOp::Rem => {
            s.append("(");
            s.append(b);
            s.append("==0n?");
            s.append(m64);
            s.append(":");
            s.append(us);
            s.append("(");
            s.append(sg);
            s.append("(");
            s.append(a);
            s.append(")%");
            s.append(sg);
            s.append("(");
            s.append(b);
            s.append(")))");
        },
        AluOp::Remu => {
            s.append("(");
            s.append(b);
            s.append("==0n?");
            s.append(m64);
            s.append(":(");
            s.append(a);
            s.append("%");
            s.append(b);
            s.append(")&");
            s.append(m64);
            s.append(")");
        },
    }
    proof {
        assert(s@ =~= alu64_js(op, a@, b@, m64@, m32@, sg@, us@));
    }
    s
}

fn alu32_text(
    op: AluOp,
    a: &str,
    b: &str,
    m64: &str,
    m32: &str,
    sg: &str,
    us: &str,
) -> (r: String)
    ensures
        r@ == alu32_js(op, a@, b@, m64@, m32@, sg@, us@),
{
    let mut s = String::new();
    match op {
        AluOp::Add => {
            s.append(us);
            s.append("(BigInt.asIntN(32,(");
            s.append(a);
            s.append("&");
            s.append(m32);
            s.append(")+(");
            s.append(b);
            s.append("&");
            s.append(m32);
            s.append(")))");
        },
        AluOp::Sub => {
            s.append(us);
            s.append("(BigInt.asIntN(32,(");
            s.append(a);
            s.append("&");
            s.append(m32);
            s.append(")-(");
            s.append(b);
            s.append("&");
            s.append(m32);
            s.append(")))");
        },
        AluOp::Sll => {
            s.append(us);
            s.append("(BigInt.asIntN(32,(");
            s.append(a);
            s.append("&");
            s.append(m32);
            s.append(")<<(");
            s.append(b);
            s.append("&31n)))");
        },
        AluOp::Srl => {
            s.append(us);
            s.append("(BigInt.asIntN(32,(");
            s.append(a);
            s.append("&");
            s.append(m32);
            s.append(")>>(");
            s.append(b);
            s.append("&31n)))");
        },
        AluOp::Sra => {
            s.append(us);
            s.append("(BigInt.asIntN(32,BigInt.asIntN(32,");
            s.append(a);
            s.append(")>>(");
            s.append(b);
            s.append("&31n)))");
        },
        AluOp::Mul => {
            s.append(us);
            s.append("(BigInt.asIntN(32,(");
            s.append(a);
            s.append("&");
            s.append(m32);
            s.append(")*(");
            s.append(b);
            s.append("&");
            s.append(m32);
            s.append(")))");
        },
        AluOp::Div => {
            s.append("((");
            s.append(b);
            s.append("&");
            s.append(m32);
            s.append(")==0n?");
            s.append(m64);
            s.append(":");
            s.append(us);
            s.append("(BigInt.asIntN(32,BigInt.asIntN(32,");
            s.append(a);
            s.append(")/BigInt.asIntN(32,");
            s.append(b);
            s.append("))))");
        },
        AluOp::Divu => {
            s.append("((");
            s.append(b);
            s.append("&");
            s.append(m32);
            s.append(")==0n?");
            s.append(m64);
            s.append(":");
            s.append(us);
            s.append("(BigInt.asIntN(32,(");
            s.append(a);
            s.append("&");
            s.append(m32);
            s.append(")/(");
            s.append(b);
            s.append("&");
            s.append(m32);
            s.append("))))");
        },
        AluOp::Rem => {
            s.append("((");
            s.append(b);
            s.append("&");
            s.append(m32);
            s.append(")==0n?");
            s.append(m64);
            s.append(":");
            s.append(us);
            s.append("(BigInt.asIntN(32,BigInt.asIntN(32,");
            s.append(a);
            s.append(")%BigInt.asIntN(32,");
            s.append(b);
            s.append("))))");
        },
        AluOp::Remu => {
            s.append("((");
            s.append(b);
            s.append("&");
            s.append(m32);
            s.append(")==0n?");
            s.append(m64);
            s.append(":");
            s.append(us);
            s.append("(BigInt.asIntN(32,(");
            s.append(a);
            s.append("&");
            s.append(m32);
            s.append(")%(");
            s.append(b);
            s.append("&");
            s.append(m32);
            s.append("))))");
        },
        _ => {
            return alu64_text(op, a, b, m64, m32, sg, us);
        },
    }
    proof {
        assert(s@ =~= alu32_js(op, a@, b@, m64@, m32@, sg@, us@));
    }
    s
}

/// Script that reads register `r` (modulo 32); register 0 reads as `0n`.
pub open spec fn reg_js(r: u8) -> Seq<char> {
    if r % 32 == 0 {
        "0n"@
    } else {
        "(($._r??=$.r)[`x"@ + decimal((r % 32) as nat) + "`]??=0n)"@
    }
}

/// Script that writes the value of `v` to register `r` (modulo 32) and yields
/// it; for register 0 it only evaluates `v`.
pub open spec fn set_reg_js(r: u8, v: Seq<char>) -> Seq<char> {
    if r % 32 == 0 {
        v
    } else {
        "(($._r??=$.r)[`x"@ + decimal((r % 32) as nat) + "`]="@ + v + ")"@
    }
}

/// A 64-bit constant.
pub open spec fn imm_js(v: u64) -> Seq<char> {
    decimal(v as nat) + "n"@
}

/// The effective address `base + offset`, wrapped to 64 bits.
pub open spec fn addr_js(n: NameViews, base: u8, offset: u64) -> Seq<char> {
    "(("@ + decimal(offset as nat) + "n+"@ + reg_js(base) + ")&"@ + n.0 + ")"@
}

/// A load from address expression `a`, extended per `op`.
pub open spec fn load_js(n: NameViews, op: LoadOp, a: Seq<char>) -> Seq<char> {
    let view = n.4 + "("@ + a + ")"@;
    match op {
        LoadOp::Lb => n.3 + "(BigInt("@ + view + ".getInt8(0,true)))"@,
        LoadOp::Lbu => "BigInt("@ + view + ".getUint8(0,true))"@,
        LoadOp::Lh => n.3 + "(BigInt("@ + view + ".getInt16(0,true)))"@,
        LoadOp::Lhu => "BigInt("@ + view + ".getUint16(0,true))"@,
        LoadOp::Lw => n.3 + "(BigInt("@ + view + ".getInt32(0,true)))"@,
        LoadOp::Lwu => "BigInt("@ + view + ".getUint32(0,true))"@,
        LoadOp::Ld => view + ".getBigUint64(0,true)"@,
    }
}

/// A store of the low `width` bytes of `v` to address expression `a`.
pub open spec fn store_js(n: NameViews, width: u64, a: Seq<char>, v: Seq<char>) -> Seq<char> {
    let view = n.4 + "("@ + a + ")"@;
    if width == 1 {
        view + ".setUint8(0,Number("@ + v + "&0xffn),true)"@
    } else if width == 2 {
        view + ".setUint16(0,Number("@ + v + "&0xffffn),true)"@
    } else if width == 4 {
        view + ".setUint32(0,Number("@ + v + "&"@ + n.1 + "),true)"@
    } else {
        view + ".setBigUint64(0,"@ + v + ",true)"@
    }
}

/// The condition of a branch on operand expressions `a` and `b`.
pub open spec fn cond_js(n: NameViews, op: BranchOp, a: Seq<char>, b: Seq<char>) -> Seq<char> {
    match op {
        BranchOp::Eq => a + "==="@ + b,
        BranchOp::Ne => a + "!=="@ + b,
        BranchOp::Ltu => a + "<"@ + b,
        BranchOp::Geu => a + ">="@ + b,
        BranchOp::Lt => n.2 + "("@ + a + ")<"@ + n.2 + "("@ + b + ")"@,
        BranchOp::Ge => n.2 + "("@ + a + ")>="@ + n.2 + "("@ + b + ")"@,
    }
}

/// Script for the register operation `op`.
pub open spec fn alu_js(n: NameViews, op: AluOp, word: bool, a: Seq<char>, b: Seq<char>) -> Seq<char> {
    if word {
        alu32_js(op, a, b, n.0, n.1, n.2, n.3)
    } else {
        alu64_js(op, a, b, n.0, n.1, n.2, n.3)
    }
}

/// Script for instruction `d` at `pc`, given the script of its direct
/// successors in the order `successors_spec` lists them (`t0` first).
/// Straight-line instructions end by falling through into `t0`; a branch
/// picks between the taken target `t1` and `t0`; a direct jump writes the link
/// register and goes on in `t0`; an indirect jump writes the link register and
/// returns a continuation to the computed, even target.
pub open spec fn lower_js(n: NameViews, pc: u64, d: Decoded, t0: Seq<char>, t1: Seq<char>) -> Seq<char> {
    let next = pc.wrapping_add(d.len);
    match d.inst {
        Instruction::Lui { dest, imm } => set_reg_js(dest, imm_js(imm)) + ";"@ + t0 + ";"@,
        Instruction::Auipc { dest, imm } => set_reg_js(dest, imm_js(imm.wrapping_add(pc))) + ";"@
            + t0 + ";"@,
        Instruction::Jal { dest, .. } => set_reg_js(dest, imm_js(next)) + ";"@ + t0,
        Instruction::Jalr { dest, base, offset } => "{let t=(("@ + decimal(offset as nat) + "n+"@
            + reg_js(base) + ")&"@ + n.0 + ")&~1n;"@ + set_reg_js(dest, imm_js(next))
            + ";return ()=>J(t);}"@,
        Instruction::Branch { op, src1, src2, .. } => "if("@ + cond_js(
            n,
            op,
            reg_js(src1),
            reg_js(src2),
        ) + "){"@ + t1 + "}else{"@ + t0 + "};"@,
        Instruction::Load { op, dest, base, offset } => set_reg_js(
            dest,
            load_js(n, op, addr_js(n, base, offset)),
        ) + ";"@ + t0 + ";"@,
        Instruction::Store { width, src, base, offset } => store_js(
            n,
            width,
            addr_js(n, base, offset),
            reg_js(src),
        ) + ";"@ + t0 + ";"@,
        Instruction::Op { op, word, dest, src1, src2 } => set_reg_js(
            dest,
            alu_js(n, op, word, reg_js(src1), reg_js(src2)),
        ) + ";"@ + t0 + ";"@,
        Instruction::OpImm { op, word, dest, src1, imm } => set_reg_js(
            dest,
            alu_js(n, op, word, reg_js(src1), imm_js(imm)),
        ) + ";"@ + t0 + ";"@,
        Instruction::Fence => ";"@ + t0 + ";"@,
        Instruction::Ecall => "await $.ecall();;"@ + t0 + ";"@,
        Instruction::Unsupported => "throw new TypeError(`op:"@ + decimal(pc as nat) + "`);"@,
    }
}

fn reg_text(r: u8) -> (s: String)
    ensures
        s@ == reg_js(r),
{
    let mut s = String::new();
    if r % 32 == 0 {
        s.append("0n");
    } else {
        s.append("(($._r??=$.r)[`x");
        push_decimal(&mut s, (r % 32) as u64);
        s.append("`]??=0n)");
    }
    proof {
        assert(s@ =~= reg_js(r));
    }
    s
}

fn set_reg_text(r: u8, v: &str) -> (s: String)
    ensures
        s@ == set_reg_js(r, v@),
{
    let mut s = String::new();
    if r % 32 == 0 {
        s.append(v);
    } else {
        s.append("(($._r??=$.r)[`x");
        push_decimal(&mut s, (r % 32) as u64);
        s.append("`]=");
        s.append(v);
        s.append(")");
    }
    proof {
        assert(s@ =~= set_reg_js(r, v@));
    }
    s
}

fn imm_text(v: u64) -> (s: String)
    ensures
        s@ == imm_js(v),
{
    let mut s = String::new();
    push_decimal(&mut s, v);
    s.append("n");
    proof {
        assert(s@ =~= imm_js(v));
    }
    s
}

fn addr_text(n: &Names, base: u8, offset: u64) -> (s: String)
    ensures
        s@ == addr_js(n@, base, offset),
{
    let mut s = String::new();
    s.append("((");
    push_decimal(&mut s, offset);
    s.append("n+");
    s.append(reg_text(base).as_str());
    s.append(")&");
    s.append(n.max64.as_str());
    s.append(")");
    proof {
        assert(s@ =~= addr_js(n@, base, offset));
    }
    s
}

fn load_text(n: &Names, op: LoadOp, a: &str) -> (s: String)
    ensures
        s@ == load_js(n@, op, a@),
{
    let mut view = String::new();
    view.append(n.data.as_str());
    view.append("(");
    view.append(a);
    view.append(")");
    let v = view.as_str();
    let mut s = String::new();
    match op {
        LoadOp::Lb => {
            s.append(n.unsigned.as_str());
            s.append("(BigInt(");
            s.append(v);
            s.append(".getInt8(0,true)))");
        },
        LoadOp::Lbu => {
            s.append("BigInt(");
            s.append(v);
            s.append(".getUint8(0,true))");
        },
        LoadOp::Lh => {
            s.append(n.unsigned.as_str());
            s.append("(BigInt(");
            s.append(v);
            s.append(".getInt16(0,true)))");
        },
        LoadOp::Lhu => {
            s.append("BigInt(");
            s.append(v);
            s.append(".getUint16(0,true))");
        },
        LoadOp::Lw => {
            s.append(n.unsigned.as_str());
            s.append("(BigInt(");
            s.append(v);
            s.append(".getInt32(0,true)))");
        },
        LoadOp::Lwu => {
            s.append("BigInt(");
            s.append(v);
            s.append(".getUint32(0,true))");
        },
        LoadOp::Ld => {
            s.append(v);
            s.append(".getBigUint64(0,true)");
        },
    }
    proof {
        assert(s@ =~= load_js(n@, op, a@));
    }
    s
}

fn store_text(n: &Names, width: u64, a: &str, v: &str) -> (s: String)
    ensures
        s@ == store_js(n@, width, a@, v@),
{
    let mut s = String::new();
    s.append(n.data.as_str());
    s.append("(");
    s.append(a);
    s.append(")");
    if width == 1 {
        s.append(".setUint8(0,Number(");
        s.append(v);
        s.append("&0xffn),true)");
    } else if width == 2 {
        s.append(".setUint16(0,Number(");
        s.append(v);
        s.append("&0xffffn),true)");
    } else if width == 4 {
        s.append(".setUint32(0,Number(");
        s.append(v);
        s.append("&");
        s.append(n.max32.as_str());
        s.append("),true)");
    } else {
        s.append(".setBigUint64(0,");
        s.append(v);
        s.append(",true)");
    }
    proof {
        assert(s@ =~= store_js(n@, width, a@, v@));
    }
    s
}

fn cond_text(n: &Names, op: BranchOp, a: &str, b: &str) -> (s: String)
    ensures
        s@ == cond_js(n@, op, a@, b@),
{
    let mut s = String::new();
    match op {
        BranchOp::Eq => {
            s.append(a);
            s.append("===");
            s.append(b);
        },
        BranchOp::Ne => {
            s.append(a);
            s.append("!==");
            s.append(b);
        },
        BranchOp::Ltu => {
            s.append(a);
            s.append("<");
            s.append(b);
        },
        BranchOp::Geu => {
            s.append(a);
            s.append(">=");
            s.append(b);
        },
        BranchOp::Lt => {
            s.append(n.signed.as_str());
            s.append("(");
            s.append(a);
            s.append(")<");
            s.append(n.signed.as_str());
            s.append("(");
            s.append(b);
            s.append(")");
        },
        BranchOp::Ge => {
            s.append(n.signed.as_str());
            s.append("(");
            s.append(a);
            s.append(")>=");
            s.append(n.signed.as_str());
            s.append("(");
            s.append(b);
            s.append(")");
        },
    }
    proof {
        assert(s@ =~= cond_js(n@, op, a@, b@));
    }
    s
}

fn alu_text(n: &Names, op: AluOp, word: bool, a: &str, b: &str) -> (s: String)
    ensures
        s@ == alu_js(n@, op, word, a@, b@),
{
    if word {
        alu32_text(
            op,
            a,
            b,
            n.max64.as_str(),
            n.max32.as_str(),
            n.signed.as_str(),
            n.unsigned.as_str(),
        )
    } else {
        alu64_text(
            op,
            a,
            b,
            n.max64.as_str(),
            n.max32.as_str(),
            n.signed.as_str(),
            n.unsigned.as_str(),
        )
    }
}

/// Appends `x` then `y` to `s`.
fn push2(s: &mut String, x: &str, y: &str)
    ensures
        final(s)@ == old(s)@ + x@ + y@,
{
    s.append(x);
    s.append(y);
}

/// Builds the script for instruction `d` at `pc`.
pub fn lower_text(n: &Names, pc: u64, d: Decoded, t0: &str, t1: &str) -> (s: String)
    ensures
        s@ == lower_js(n@, pc, d, t0@, t1@),
{
    let next = pc.wrapping_add(d.len);
    let mut s = String::new();
    match d.inst {
        Instruction::Lui { dest, imm } => {
            s.append(set_reg_text(dest, imm_text(imm).as_str()).as_str());
            push2(&mut s, ";", t0);
            s.append(";");
        },
        Instruction::Auipc { dest, imm } => {
            s.append(set_reg_text(dest, imm_text(imm.wrapping_add(pc)).as_str()).as_str());
            push2(&mut s, ";", t0);
            s.append(";");
        },
        Instruction::Jal { dest, .. } => {
            s.append(set_reg_text(dest, imm_text(next).as_str()).as_str());
            push2(&mut s, ";", t0);
        },
        Instruction::Jalr { dest, base, offset } => {
            s.append("{let t=((");
            push_decimal(&mut s, offset);
            s.append("n+");
            s.append(reg_text(base).as_str());
            s.append(")&");
            s.append(n.max64.as_str());
            s.append(")&~1n;");
            s.append(set_reg_text(dest, imm_text(next).as_str()).as_str());
            s.append(";return ()=>J(t);}");
        },
        Instruction::Branch { op, src1, src2, .. } => {
            s.append("if(");
            s.append(cond_text(n, op, reg_text(src1).as_str(), reg_text(src2).as_str()).as_str());
            push2(&mut s, "){", t1);
            push2(&mut s, "}else{", t0);
            s.append("};");
        },
        Instruction::Load { op, dest, base, offset } => {
            let v = load_text(n, op, addr_text(n, base, offset).as_str());
            s.append(set_reg_text(dest, v.as_str()).as_str());
            push2(&mut s, ";", t0);
            s.append(";");
        },
        Instruction::Store { width, src, base, offset } => {
            s.append(
                store_text(
                    n,
                    width,
                    addr_text(n, base, offset).as_str(),
                    reg_text(src).as_str(),
                ).as_str(),
            );
            push2(&mut s, ";", t0);
            s.append(";");
        },
        Instruction::Op { op, word, dest, src1, src2 } => {
            let v = alu_text(n, op, word, reg_text(src1).as_str(), reg_text(src2).as_str());
            s.append(set_reg_text(dest, v.as_str()).as_str());
            push2(&mut s, ";", t0);
            s.append(";");
        },
        Instruction::OpImm { op, word, dest, src1, imm } => {
            let v = alu_text(n, op, word, reg_text(src1).as_str(), imm_text(imm).as_str());
            s.append(set_reg_text(dest, v.as_str()).as_str());
            push2(&mut s, ";", t0);
            s.append(";");
        },
        Instruction::Fence => {
            push2(&mut s, ";", t0);
            s.append(";");
        },
        Instruction::Ecall => {
            push2(&mut s, "await $.ecall();;", t0);
            s.append(";");
        },
        Instruction::Unsupported => {
            s.append("throw new TypeError(`op:");
            push_decimal(&mut s, pc);
            s.append("`);");
        },
    }
    proof {
        assert(s@ =~= lower_js(n@, pc, d, t0@, t1@));
    }
    s
}

/// The fingerprint check that opens the code of address `pc`: if the word
/// there is no longer `word`, the trace rooted at `root` is dropped from the
/// cache and control returns to the cache at `pc`.
pub open spec fn guard_js(n: NameViews, pc: u64, word: u32, root: u64) -> Seq<char> {
    "const p="@ + decimal(pc as nat) + "n;if("@ + n.4 + "(p).getUint32(0,true)!="@ + decimal(
        word as nat,
    ) + "){delete $.p[`"@ + decimal(root as nat) + "`];return J(p);};"@
}

/// The test-case log line for address `pc`, if test mode is on and the
/// instruction there is a test marker.
pub open spec fn hint_js(flags: Flags, pc: u64, d: Result<Decoded, DecodeFault>) -> Seq<char> {
    match d {
        Ok(d) => match test_marker_spec(d.inst) {
            Some(v) => if flags.test_mode {
                "console.log(`[HINT] PC=0x"@ + hex(pc as nat) + ": Test case "@ + signed_decimal(
                    v as int,
                ) + "`);"@
            } else {
                Seq::empty()
            },
            None => Seq::empty(),
        },
        Err(_) => Seq::empty(),
    }
}

/// The code of one address inside its labelled loop: the guard, the test
/// log, and the lowered instruction (or a thrown error for a word that does
/// not decode).
pub open spec fn body_js(
    n: NameViews,
    flags: Flags,
    root: u64,
    pc: u64,
    word: u32,
    d: Result<Decoded, DecodeFault>,
    t0: Seq<char>,
    t1: Seq<char>,
) -> Seq<char> {
    guard_js(n, pc, word, root) + hint_js(flags, pc, d) + match d {
        Ok(d) => lower_js(n, pc, d, t0, t1),
        Err(_) => "throw new TypeError(`decoding: "@ + decimal(word as nat) + "`);"@,
    }
}

/// Bound on the number of labels: one per 64-bit address.
pub open spec fn label_room(labels: Map<u64, Seq<char>>) -> int {
    0x1_0000_0000_0000_0000int - labels.dom().len()
}

/// A finite set of addresses that misses some address has fewer members
/// than there are addresses.
pub proof fn lemma_fewer_than_all(s: Set<u64>, pc: u64)
    requires
        s.finite(),
        !s.contains(pc),
    ensures
        s.len() < 0x1_0000_0000_0000_0000int,
{
    let f = |x: u64| x as int;
    let t = s.map(f);
    assert(vstd::relations::injective_on(f, s));
    vstd::set_lib::lemma_map_size(s, t, f);
    vstd::set_lib::lemma_int_range(0, 0x1_0000_0000_0000_0000int);
    let all = vstd::set_lib::set_int_range(0, 0x1_0000_0000_0000_0000int);
    let r = all.remove(pc as int);
    assert(t.subset_of(r)) by {
        assert forall|y: int| #[trigger] t.contains(y) implies r.contains(y) by {
            let x = choose|x: u64| s.contains(x) && f(x) == y;
            assert(x != pc);
        }
    }
    assert(all.contains(pc as int));
    vstd::set_lib::lemma_len_subset(t, r);
}

/// The script of the trace rooted at `root`, rendered from `pc` inside the
/// loops whose labels `labels` holds. An address with compiled code of its
/// own becomes a continuation into the cache; an address already labelled
/// becomes `continue` to its loop; any other opens a loop labelled after it,
/// holding its code and, inside, the code of its direct successors.
pub open spec fn trace_js<C: JitCtx>(
    c: &C,
    n: NameViews,
    flags: Flags,
    root: u64,
    labels: Map<u64, Seq<char>>,
    pc: u64,
) -> Seq<char>
    decreases label_room(labels),
{
    if c.heat_spec(pc) == Heat::Cached {
        "return J("@ + decimal(pc as nat) + "n);"@
    } else if labels.contains_key(pc) {
        "continue "@ + labels[pc] + ";"@
    } else if labels.dom().finite() && labels.dom().len() < 0x1_0000_0000_0000_0000int {
        let name = "x"@ + decimal(pc as nat);
        let inner = labels.insert(pc, name);
        let word = c.word_spec(pc);
        let d = decode_spec(word);
        let succ = successors_spec(pc, d);
        let t0 = if succ.len() > 0 {
            trace_js(c, n, flags, root, inner, succ[0])
        } else {
            Seq::empty()
        };
        let t1 = if succ.len() > 1 {
            trace_js(c, n, flags, root, inner, succ[1])
        } else {
            Seq::empty()
        };
        name + ": for(;;){"@ + body_js(n, flags, root, pc, word, d, t0, t1) + "break "@ + name
            + ";}"@
    } else {
        // Unreachable: a finite label set always has room (`lemma_fewer_than_all`).
        Seq::empty()
    }
}

impl<'a, C: JitCtx, F: Flate> Params<'a, C, F> {
    fn body_text(
        &self,
        n: &Names,
        pc: u64,
        word: u32,
        d: Result<Decoded, DecodeFault>,
        t0: &str,
        t1: &str,
    ) -> (s: String)
        ensures
            s@ == body_js(n@, self.flags, self.root, pc, word, d, t0@, t1@),
    {
        let mut s = String::new();
        s.append("const p=");
        push_decimal(&mut s, pc);
        s.append("n;if(");
        s.append(n.data.as_str());
        s.append("(p).getUint32(0,true)!=");
        push_decimal(&mut s, word as u64);
        s.append("){delete $.p[`");
        push_decimal(&mut s, self.root);
        s.append("`];return J(p);};");
        let ghost g = s@;
        match d {
            Ok(dd) => {
                match detect_test_marker(&dd.inst) {
                    Some(v) => {
                        if self.flags.test_mode {
                            s.append("console.log(`[HINT] PC=0x");
                            push_hex(&mut s, pc);
                            s.append(": Test case ");
                            push_signed_decimal(&mut s, v);
                            s.append("`);");
                        }
                    },
                    None => {},
                }
                let ghost h = s@;
                s.append(lower_text(n, pc, dd, t0, t1).as_str());
                proof {
                    assert(g =~= guard_js(n@, pc, word, self.root));
                    assert(h =~= g + hint_js(self.flags, pc, d));
                }
            },
            Err(_) => {
                s.append("throw new TypeError(`decoding: ");
                push_decimal(&mut s, word as u64);
                s.append("`);");
                proof {
                    assert(g =~= guard_js(n@, pc, word, self.root));
                    assert(hint_js(self.flags, pc, d) =~= Seq::<char>::empty());
                }
            },
        }
        proof {
            assert(s@ =~= body_js(n@, self.flags, self.root, pc, word, d, t0@, t1@));
        }
        s
    }

    /// Renders the trace from `pc`, opening loops at nesting depth `depth`,
    /// inside the loops that `labels` holds; `labels` is the same again
    /// afterwards.
    pub fn render(&self, n: &Names, labels: &mut Labels, pc: u64, depth: u32) -> (s: String)
        requires
            self.react.ctx_wf(),
        ensures
            final(labels).0@ == old(labels).0@,
            s@ == trace_js(
                self.react,
                n@,
                self.flags,
                self.root,
                label_names(old(labels).0@),
                pc,
            ),
        decreases label_room(label_names(old(labels).0@)),
    {
        let mut s = String::new();
        if self.react.heat(pc) == Heat::Cached {
            s.append("return J(");
            push_decimal(&mut s, pc);
            s.append("n);");
            proof {
                assert(s@ =~= trace_js(
                    self.react,
                    n@,
                    self.flags,
                    self.root,
                    label_names(old(labels).0@),
                    pc,
                ));
            }
            return s;
        }
        if labels.0.contains_key(&pc) {
            let l = labels.0.get(&pc).unwrap();
            s.append("continue ");
            s.append(l.ident_name.as_str());
            s.append(";");
            proof {
                assert(label_names(old(labels).0@)[pc] == l.ident_name@);
                assert(s@ =~= trace_js(
                    self.react,
                    n@,
                    self.flags,
                    self.root,
                    label_names(old(labels).0@),
                    pc,
                ));
            }
            return s;
        }
        let mut name = String::new();
        name.append("x");
        push_decimal(&mut name, pc);
        let ghost before = labels.0@;
        proof {
            assert(label_names(before).dom() =~= before.dom());
            lemma_fewer_than_all(before.dom(), pc);
        }
        labels.0.insert(pc, Label { ident_name: name.clone(), index: depth });
        let ghost inner = labels.0@;
        proof {
            assert(label_names(inner) =~= label_names(before).insert(pc, name@));
            assert(label_names(inner).dom() =~= before.dom().insert(pc));
        }
        let word = self.react.word(pc);
        let d = decode(word);
        let succ = crate::jit::successors(pc, d);
        let t0 = if succ.len() > 0 {
            self.render(n, labels, succ[0], depth.wrapping_add(1))
        } else {
            String::new()
        };
        let t1 = if succ.len() > 1 {
            self.render(n, labels, succ[1], depth.wrapping_add(1))
        } else {
            String::new()
        };
        labels.0.remove(&pc);
        proof {
            assert(labels.0@ =~= before);
        }
        s.append(name.as_str());
        s.append(": for(;;){");
        s.append(self.body_text(n, pc, word, d, t0.as_str(), t1.as_str()).as_str());
        s.append("break ");
        s.append(name.as_str());
        s.append(";}");
        proof {
            assert(s@ =~= trace_js(
                self.react,
                n@,
                self.flags,
                self.root,
                label_names(before),
                pc,
            ));
        }
        s
    }
}

/// The rendering of one address of a trace.
pub struct TemplateJit<'a, C: JitCtx, F: Flate> {
    pub params: Params<'a, C, F>,
    pub pc: u64,
    /// Nesting depth of the loop being opened.
    pub depth: u32,
}

impl<'a, C: JitCtx, F: Flate> TemplateJit<'a, C, F> {
    /// Renders the trace from this address inside the loops that `labels`
    /// holds; `labels` is the same again afterwards.
    pub fn jit_js(&self, labels: &mut Labels) -> (s: String)
        requires
            self.params.react.ctx_wf(),
        ensures
            final(labels).0@ == old(labels).0@,
            s@ == trace_js(
                self.params.react,
                flate_names(self.params.flate),
                self.params.flags,
                self.params.root,
                label_names(old(labels).0@),
                self.pc,
            ),
    {
        let names = Names::of(self.params.flate);
        self.params.render(&names, labels, self.pc, self.depth)
    }
}

/// Structured control opcodes of a WebAssembly back end.
#[derive(Debug, Clone, Copy, PartialEq, Eq, Structural)]
pub enum WasmOp {
    /// Opens a loop block.
    Loop,
    /// Branches to the enclosing block `relative_depth` levels out.
    Br { relative_depth: u32 },
    /// Closes a block.
    End,
}

impl<'a, C: JitCtx, F: Flate> TemplateJit<'a, C, F> {
    /// The opcode stream for this address in a WebAssembly trace: a back
    /// edge to an enclosing loop when the address is already labelled,
    /// otherwise a loop around `body` (the code of the address, rendered with
    /// it labelled at this depth).
    pub fn jit_wasm(&self, labels: &Labels, body: Vec<WasmOp>) -> (r: Vec<WasmOp>)
        requires
            labels.0@.contains_key(self.pc) ==> labels.0@[self.pc].index <= self.depth,
        ensures
            !labels.0@.contains_key(self.pc) ==> r@ == seq![WasmOp::Loop] + body@ + seq![
                WasmOp::End,
            ],
            labels.0@.contains_key(self.pc) ==> r@ == seq![
                WasmOp::Br { relative_depth: (self.depth - labels.0@[self.pc].index) as u32 },
            ],
    {
        match labels.0.get(&self.pc) {
            Some(l) => {
                let relative_depth = self.depth - l.index;
                vec![WasmOp::Br { relative_depth }]
            },
            None => {
                let mut r = vec![WasmOp::Loop];
                let mut b = body;
                r.append(&mut b);
                r.push(WasmOp::End);
                proof {
                    assert(r@ =~= seq![WasmOp::Loop] + body@ + seq![WasmOp::End]);
                }
                r
            },
        }
    }
}

/// In emitted script register 0 reads as `0n`, and a write to it only
/// evaluates the value: nothing is assigned.
pub proof fn lemma_script_zero_register(r: u8, v: Seq<char>)
    requires
        r % 32 == 0,
    ensures
        reg_js(r) == "0n"@,
        set_reg_js(r, v) == v,
{
}

/// The code emitted for a test marker: in test mode it logs exactly one
/// record, with the marker's address and case number, and otherwise nothing;
/// the marker itself lowers to a write to `x0`, which assigns no register and
/// touches no memory, and falls through.
pub proof fn lemma_script_test_marker(n: NameViews, flags: Flags, pc: u64, d: Decoded, t0: Seq<char>)
    requires
        test_marker_spec(d.inst) is Some,
    ensures
        flags.test_mode ==> hint_js(flags, pc, Ok(d)) == "console.log(`[HINT] PC=0x"@ + hex(
            pc as nat,
        ) + ": Test case "@ + signed_decimal(test_marker_spec(d.inst)->0 as int) + "`);"@,
        !flags.test_mode ==> hint_js(flags, pc, Ok(d)) == Seq::<char>::empty(),
        lower_js(n, pc, d, t0, Seq::empty()) == alu_js(
            n,
            AluOp::Add,
            false,
            "0n"@,
            imm_js(d.inst->OpImm_imm),
        ) + ";"@ + t0 + ";"@,
{
}

/// The whole host script for the trace rooted at `pc`: the prologue binding
/// the helpers as `flate` renames them, then the trace.
pub fn jit_code<C: JitCtx, F: Flate>(react: &C, flate: &F, flags: Flags, pc: u64) -> (s: String)
    requires
        react.ctx_wf(),
    ensures
        s@ == crate::template::core_js(
            flate_names(flate).0,
            flate_names(flate).1,
            flate_names(flate).2,
            flate_names(flate).3,
            crate::template::data_function_js(flags, flate_names(flate).4),
            trace_js(react, flate_names(flate), flags, pc, Map::empty(), pc),
        ),
{
    let names = Names::of(flate);
    let params = Params { react, flate, root: pc, flags };
    let mut labels = Labels(BTreeMap::new());
    proof {
        assert(label_names(labels.0@) =~= Map::<u64, Seq<char>>::empty());
    }
    let content = params.render(&names, &mut labels, pc, 0);
    let core = CoreJS { content: content.as_str(), flate, flags };
    core.render()
}

} // verus!
