use vane::cpu::{alu32, alu64};
use vane::decode::{decode, AluOp, DecodeFault, Decoded, Instruction, LoadOp};
use vane::flate::{DebugFlate, Flate, ReleaseFlate};
use vane::hint::{detect_hint, detect_test_marker, Hint, HintKind};
use vane::mem::{Mem, MemError, PagingMode};
use vane::template::{CoreJS, Flags};
use vane::text::to_decimal;

#[test]
fn write_then_read_byte() {
    let mut m = Mem::new();
    m.write_byte(0xdead_beef, 0x5a);
    assert_eq!(m.read_byte(0xdead_beef), 0x5a);
    assert_eq!(m.read_byte(0xdead_bef0), 0);
    m.write_byte(u64::MAX, 7);
    assert_eq!(m.read_byte(u64::MAX), 7);
}

#[test]
fn unallocated_read_is_zero_and_allocates_nothing() {
    let m = Mem::default();
    assert_eq!(m.read_byte(0x1234_5678), 0);
    assert!(m.pages.is_empty());
    assert_eq!(m.paging_mode, PagingMode::Legacy);
}

#[test]
fn get_page_allocates_once() {
    let mut m = Mem::new();
    assert_eq!(m.get_page(0x2_0005), 0);
    assert_eq!(m.pages.len(), 1);
    assert!(m.pages.contains_key(&2));
    m.write_byte(0x2_0005, 9);
    assert_eq!(m.get_page(0x2_0005), 9);
    assert_eq!(m.pages.len(), 1);
}

#[test]
fn load_across_page_boundary() {
    let mut m = Mem::new();
    m.store(0xfffe, 8, 0x0807_0605_0403_0201);
    assert_eq!(m.pages.len(), 2);
    assert_eq!(m.read_byte(0xfffe), 0x01);
    assert_eq!(m.read_byte(0x1_0000), 0x03);
    assert_eq!(m.load(0xfffe, 8), 0x0807_0605_0403_0201);
    assert_eq!(m.load(0xffff, 2), 0x0302);
    assert_eq!(m.load(0xfffd, 4), 0x0302_0100);
}

#[test]
fn store_truncates_to_width() {
    let mut m = Mem::new();
    m.store(0x100, 2, 0xaabb_ccdd);
    assert_eq!(m.load(0x100, 4), 0xccdd);
}

fn paged_mem() -> Mem {
    let mut m = Mem::new();
    m.shared_page_table_vaddr = Some(0x10_0000);
    m.shared_security_directory_vaddr = Some(0x20_0000);
    m
}

#[test]
fn translate_single_level_64() {
    let mut m = paged_mem();
    m.store(0x10_0000 + 2 * 8, 8, (0x1234u64 << 16) | 3);
    m.store(0x20_0000 + 3 * 8, 8, 0xabcd_0000_0000_0000);
    assert_eq!(m.translate_shared(0x2_0042), Ok((0xabcdu64 << 48) | 0x1234 + 0x42));
}

#[test]
fn translate_single_level_32() {
    let mut m = paged_mem();
    m.store(0x10_0000 + 2 * 4, 4, (0x1234u64 << 8) | 3);
    m.store(0x20_0000 + 3 * 4, 4, 0xab00_0000);
    assert_eq!(m.translate_shared_32(0x2_0042), Ok((0xabu64 << 24) | 0x1234 + 0x42));
}

#[test]
fn translate_three_level_64() {
    let mut m = paged_mem();
    let v: u64 = (1 << 48) | (2 << 32) | (3 << 16) | 0x77;
    m.store(0x10_0000 + 8, 8, 0x30_0000);
    m.store(0x30_0000 + 2 * 8, 8, 0x40_0000);
    m.store(0x40_0000 + 3 * 8, 8, (0x99u64 << 16) | 5);
    m.store(0x20_0000 + 5 * 4, 4, 0x00ee_0000);
    assert_eq!(m.translate_shared_multilevel(v), Ok((0xeeu64 << 48) | 0x99 + 0x77));
}

#[test]
fn translate_three_level_32() {
    let mut m = paged_mem();
    let v: u64 = (1 << 48) | (2 << 32) | (3 << 16) | 0x77;
    m.store(0x10_0000 + 4, 4, 0x30_0000);
    m.store(0x30_0000 + 2 * 4, 4, 0x40_0000);
    m.store(0x40_0000 + 3 * 4, 4, (0x99u64 << 8) | 5);
    m.store(0x20_0000 + 5 * 4, 4, 0xcd00_0000);
    assert_eq!(m.translate_shared_multilevel_32(v), Ok((0xcdu64 << 24) | 0x99 + 0x77));
}

#[test]
fn zero_tables_translate_to_offset() {
    let m = paged_mem();
    assert_eq!(m.translate_shared(0x5_1234), Ok(0x1234));
    assert_eq!(m.translate_shared_multilevel_32(0x5_1234), Ok(0x1234));
}

#[test]
fn unset_bases_are_misconfigured() {
    let mut m = Mem::new();
    m.shared_page_table_vaddr = Some(0x1000);
    assert_eq!(m.translate_shared(0x10), Err(MemError::TranslationMisconfigured));
    assert_eq!(m.translate_shared_multilevel(0x10), Err(MemError::TranslationMisconfigured));
    assert_eq!(m.translate_shared_32(0x10), Err(MemError::TranslationMisconfigured));
    assert_eq!(m.translate_shared_multilevel_32(0x10), Err(MemError::TranslationMisconfigured));
    assert_eq!(m.translate(0x10), Ok(0x10));
}

#[test]
fn wasm_legacy_offset() {
    let m = Mem::new();
    assert_eq!(m.translate_to_wasm_legacy(0x3_0010, 0x100), 0x3_0110);
    assert_eq!(m.translate_to_wasm_legacy(u64::MAX, 1), 0);
}

#[test]
fn paging_js_embeds_arguments() {
    let m = Mem::new();
    let s = m.generate_shared_paging_js("va", "pt", "sd");
    assert!(s.starts_with("((v,pt,sd)=>{let page_num=v>>16n;"));
    assert!(s.ends_with("})(va,pt,sd)"));
    let t = m.generate_multilevel_paging_js("a", "b", "c");
    assert!(t.starts_with("((v,l3,sd)=>{let read_u64="));
    assert!(t.ends_with("})(a,b,c)"));
}

#[test]
fn shifts_mask_their_count() {
    assert_eq!(alu64(AluOp::Sll, 1, 65), 2);
    assert_eq!(alu64(AluOp::Srl, 0x8000_0000_0000_0000, 127), 1);
    assert_eq!(alu64(AluOp::Sra, 0x8000_0000_0000_0000, 64 + 63), u64::MAX);
    assert_eq!(alu32(AluOp::Sll, 1, 33), 2);
    assert_eq!(alu32(AluOp::Sll, 1, 31), 0xFFFF_FFFF_8000_0000);
    assert_eq!(alu32(AluOp::Sra, 0x8000_0000, 32 + 31), u64::MAX);
}

#[test]
fn divide_by_zero_gives_all_ones() {
    for op in [AluOp::Div, AluOp::Divu, AluOp::Rem, AluOp::Remu] {
        assert_eq!(alu64(op, 12345, 0), u64::MAX);
        assert_eq!(alu32(op, 12345, 0x1_0000_0000), u64::MAX);
    }
}

#[test]
fn signed_division_overflow_wraps() {
    let min = 0x8000_0000_0000_0000u64;
    assert_eq!(alu64(AluOp::Div, min, u64::MAX), min);
    assert_eq!(alu64(AluOp::Rem, min, u64::MAX), 0);
    assert_eq!(alu64(AluOp::Div, (-7i64) as u64, 2), (-3i64) as u64);
    assert_eq!(alu64(AluOp::Rem, (-7i64) as u64, 2), (-1i64) as u64);
    assert_eq!(alu32(AluOp::Div, 0x8000_0000, 0xFFFF_FFFF), 0xFFFF_FFFF_8000_0000);
}

#[test]
fn multiply_high_halves() {
    assert_eq!(alu64(AluOp::Mulhu, u64::MAX, u64::MAX), u64::MAX - 1);
    assert_eq!(alu64(AluOp::Mulh, u64::MAX, u64::MAX), 0);
    assert_eq!(alu64(AluOp::Mulh, (-2i64) as u64, 3), u64::MAX);
    assert_eq!(alu64(AluOp::Mulhsu, u64::MAX, 2), u64::MAX);
    assert_eq!(alu64(AluOp::Mul, 1 << 63, 2), 0);
}

#[test]
fn word_ops_sign_extend() {
    assert_eq!(alu32(AluOp::Add, 0x7FFF_FFFF, 1), 0xFFFF_FFFF_8000_0000);
    assert_eq!(alu32(AluOp::Sub, 0, 1), u64::MAX);
    assert_eq!(alu32(AluOp::Srl, 0xFFFF_FFFF, 4), 0x0FFF_FFFF);
}

#[test]
fn set_less_than() {
    assert_eq!(alu64(AluOp::Slt, u64::MAX, 0), 1);
    assert_eq!(alu64(AluOp::Sltu, u64::MAX, 0), 0);
}

#[test]
fn decode_addi_and_lengths() {
    // addi x1, x0, -1
    let d = decode(0xfff0_0093).unwrap();
    assert_eq!(
        d,
        Decoded {
            inst: Instruction::OpImm { op: AluOp::Add, word: false, dest: 1, src1: 0, imm: u64::MAX },
            len: 4
        }
    );
    // c.li x1, 5
    let c = decode(0x4095).unwrap();
    assert_eq!(c.len, 2);
    assert_eq!(
        c.inst,
        Instruction::OpImm { op: AluOp::Add, word: false, dest: 1, src1: 0, imm: 5 }
    );
    // ld x2, 8(x1)
    assert_eq!(
        decode(0x0080_b103).unwrap().inst,
        Instruction::Load { op: LoadOp::Ld, dest: 2, base: 1, offset: 8 }
    );
    assert_eq!(decode(0).unwrap_err(), DecodeFault { word: 0 });
    assert_eq!(decode(0x0010_0073).unwrap().inst, Instruction::Unsupported);
    assert_eq!(decode(0x0000_0073).unwrap().inst, Instruction::Ecall);
}

#[test]
fn decode_branch_offset_in_bytes() {
    // bne x1, x0, -4
    assert_eq!(
        decode(0xfe00_9ee3).unwrap().inst,
        Instruction::Branch {
            op: vane::decode::BranchOp::Ne,
            src1: 1,
            src2: 0,
            offset: (-4i64) as u64
        }
    );
}

#[test]
fn hints_and_markers() {
    let marker = Instruction::OpImm { op: AluOp::Add, word: false, dest: 0, src1: 0, imm: 42 };
    assert_eq!(detect_test_marker(&marker), Some(42));
    assert_eq!(detect_hint(&marker), Some(Hint { value: 42, kind: HintKind::Addi }));
    let nop = Instruction::OpImm { op: AluOp::Add, word: false, dest: 0, src1: 0, imm: 0 };
    assert_eq!(detect_test_marker(&nop), None);
    let from_reg = Instruction::OpImm { op: AluOp::Add, word: false, dest: 0, src1: 3, imm: 7 };
    assert_eq!(detect_test_marker(&from_reg), None);
    assert_eq!(detect_hint(&from_reg), Some(Hint { value: 7, kind: HintKind::Addi }));
    let rr = Instruction::Op { op: AluOp::Xor, word: false, dest: 0, src1: 1, src2: 2 };
    assert_eq!(detect_hint(&rr), Some(Hint { value: 0, kind: HintKind::RegReg }));
    let mul = Instruction::Op { op: AluOp::Mul, word: false, dest: 0, src1: 1, src2: 2 };
    assert_eq!(detect_hint(&mul), None);
    let lui = Instruction::Lui { dest: 0, imm: 0x5000 };
    assert_eq!(detect_hint(&lui), Some(Hint { value: 0x5000, kind: HintKind::Lui }));
    let real = Instruction::OpImm { op: AluOp::Add, word: false, dest: 1, src1: 0, imm: 7 };
    assert_eq!(detect_hint(&real), None);
}

#[test]
fn flate_names() {
    assert_eq!(ReleaseFlate {}.flate("max64"), "f");
    assert_eq!(ReleaseFlate {}.flate("max32"), "g");
    assert_eq!(ReleaseFlate {}.flate("signed"), "s");
    assert_eq!(ReleaseFlate {}.flate("unsigned"), "u");
    assert_eq!(ReleaseFlate {}.flate("data"), "d");
    assert_eq!(ReleaseFlate {}.flate("other"), "other");
    assert_eq!(DebugFlate {}.flate("max64"), "max64");
}

#[test]
fn flags_constructors() {
    let f = Flags::new_with_test_mode(true);
    assert!(f.test_mode);
    assert_eq!(f.paging_mode, None);
    let g = Flags::with_paging(false, PagingMode::Both, Some(1), Some(2), true, false);
    assert_eq!(g.paging_mode, Some(PagingMode::Both));
    assert_eq!(g.shared_page_table_vaddr, Some(1));
    assert_eq!(g.shared_security_directory_vaddr, Some(2));
    assert!(g.use_32bit_paging);
    assert!(!g.use_multilevel_paging);
    assert_eq!(Flags::default(), Flags::new_with_test_mode(false));
}

#[test]
fn core_prologue_legacy() {
    let flate = ReleaseFlate {};
    let core = CoreJS { content: "BODY", flate: &flate, flags: Flags::new_with_test_mode(false) };
    assert_eq!(
        core.render(),
        "return async function(){let f=$.f,g=0xffff_ffffn,s=(a=>BigInt.asIntN(64,a)),\
         u=(a=>BigInt.asUintN(64,a)),d=(p=>{p=$.get_page(p);return new \
         DataView($._sys(`memory`).buffer,p);});BODY}"
    );
}

#[test]
fn data_function_uses_bases() {
    let flate = DebugFlate {};
    let flags = Flags::with_paging(false, PagingMode::Shared, Some(4096), Some(8192), false, false);
    let core = CoreJS { content: "", flate: &flate, flags };
    let s = core.write_data_function("data");
    assert!(s.starts_with("data=(v=>{let read_u64="));
    assert!(s.contains("let entry_addr=4096n+(page_num<<3n);"));
    assert!(s.contains("let sec_entry_addr=8192n+(sec_idx<<3n);"));
    let flags32 = Flags::with_paging(false, PagingMode::Both, Some(1), Some(2), true, true);
    let core32 = CoreJS { content: "", flate: &flate, flags: flags32 };
    let t = core32.write_data_function("d");
    assert!(t.contains("read_u32(1n+(l3_idx<<2n))"));
    assert!(t.contains("let sec_entry_addr=2n+BigInt(sec_idx<<2);let sec_entry=read_u32(sec_entry_addr);"));
}

#[test]
fn data_function_with_unset_base_throws() {
    let flate = ReleaseFlate {};
    for mode in [PagingMode::Shared, PagingMode::Both] {
        let flags = Flags::with_paging(false, mode, Some(4096), None, false, false);
        let core = CoreJS { content: "", flate: &flate, flags };
        assert_eq!(
            core.write_data_function("d"),
            "d=(v=>{throw new TypeError(`TranslationMisconfigured`);})"
        );
        let flags = Flags::with_paging(false, mode, None, Some(1), true, true);
        let core = CoreJS { content: "", flate: &flate, flags };
        assert!(core.write_data_function("d").contains("TranslationMisconfigured"));
    }
    let legacy = Flags::with_paging(false, PagingMode::Legacy, None, None, false, false);
    let core = CoreJS { content: "", flate: &flate, flags: legacy };
    assert!(!core.write_data_function("d").contains("TranslationMisconfigured"));
}

#[test]
fn sraw_shifts_arithmetically() {
    assert_eq!(alu32(AluOp::Sra, 0x8000_0000, 33), 0xFFFF_FFFF_C000_0000);
    assert_eq!(alu32(AluOp::Srl, 0x8000_0000, 33), 0x4000_0000);
}

#[test]
fn decimal_text() {
    assert_eq!(to_decimal(0), "0");
    assert_eq!(to_decimal(4096), "4096");
    assert_eq!(to_decimal(u64::MAX), "18446744073709551615");
}
