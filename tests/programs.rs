use vane::cpu::VmError;
use vane::mem::Mem;
use vane::reactor::{Reactor, RunEnd};
use vane::flate::ReleaseFlate;
use vane::riscv::{Label, Labels, Params, TemplateJit, WasmOp};
use std::collections::BTreeMap;

const BASE: u64 = 0x1000;
const FUEL: u64 = 10_000;

fn addi(rd: u32, rs1: u32, imm: i32) -> u32 {
    (((imm as u32) & 0xfff) << 20) | (rs1 << 15) | (rd << 7) | 0x13
}

fn rtype(funct7: u32, rs2: u32, rs1: u32, funct3: u32, rd: u32) -> u32 {
    (funct7 << 25) | (rs2 << 20) | (rs1 << 15) | (funct3 << 12) | (rd << 7) | 0x33
}

fn srli(rd: u32, rs1: u32, shamt: u32) -> u32 {
    (shamt << 20) | (rs1 << 15) | (5 << 12) | (rd << 7) | 0x13
}

fn bne(rs1: u32, rs2: u32, off: i32) -> u32 {
    let o = off as u32;
    (((o >> 12) & 1) << 31)
        | (((o >> 5) & 0x3f) << 25)
        | (rs2 << 20)
        | (rs1 << 15)
        | (1 << 12)
        | (((o >> 1) & 0xf) << 8)
        | (((o >> 11) & 1) << 7)
        | 0x63
}

fn jal(rd: u32, off: i32) -> u32 {
    let o = off as u32;
    (((o >> 20) & 1) << 31)
        | (((o >> 1) & 0x3ff) << 21)
        | (((o >> 11) & 1) << 20)
        | (((o >> 12) & 0xff) << 12)
        | (rd << 7)
        | 0x6f
}

fn jalr(rd: u32, rs1: u32, off: i32) -> u32 {
    (((off as u32) & 0xfff) << 20) | (rs1 << 15) | (rd << 7) | 0x67
}

fn lui(rd: u32, imm20: u32) -> u32 {
    (imm20 << 12) | (rd << 7) | 0x37
}

fn sw(rs2: u32, rs1: u32, off: i32) -> u32 {
    let o = off as u32;
    (((o >> 5) & 0x7f) << 25) | (rs2 << 20) | (rs1 << 15) | (2 << 12) | ((o & 0x1f) << 7) | 0x23
}

const ECALL: u32 = 0x0000_0073;
const EBREAK: u32 = 0x0010_0073;

fn load_program(words: &[u32]) -> Reactor {
    let mut mem = Mem::new();
    for (i, w) in words.iter().enumerate() {
        mem.store(BASE + 4 * i as u64, 4, *w as u64);
    }
    Reactor::new_with_mem(mem)
}

fn exit_seq() -> Vec<u32> {
    vec![addi(17, 0, 93), ECALL]
}

#[test]
fn add_program_interp() {
    let mut prog = vec![addi(1, 0, 7), addi(2, 0, 5), rtype(0, 2, 1, 0, 3)];
    prog.extend(exit_seq());
    let mut r = load_program(&prog);
    assert_eq!(r.interp(BASE, FUEL), RunEnd::Exited);
    assert_eq!(r.regs.x[3], 12);
}

#[test]
fn add_program_jit() {
    let mut prog = vec![addi(1, 0, 7), addi(2, 0, 5), rtype(0, 2, 1, 0, 3)];
    prog.extend(exit_seq());
    let mut r = load_program(&prog);
    assert_eq!(r.jit_run(BASE, FUEL), RunEnd::Exited);
    assert_eq!(r.regs.x[3], 12);
}

#[test]
fn shift_right_program() {
    let mut prog = vec![addi(1, 0, -1), srli(2, 1, 60)];
    prog.extend(exit_seq());
    let mut a = load_program(&prog);
    assert_eq!(a.interp(BASE, FUEL), RunEnd::Exited);
    assert_eq!(a.regs.x[2], 0xF);
    let mut b = load_program(&prog);
    assert_eq!(b.jit_run(BASE, FUEL), RunEnd::Exited);
    assert_eq!(b.regs.x[2], 0xF);
}

#[test]
fn countdown_loop_is_one_trace() {
    let mut prog = vec![addi(1, 0, 10), addi(1, 1, -1), bne(1, 0, -4)];
    prog.extend(exit_seq());
    let mut r = load_program(&prog);
    assert_eq!(r.jit_run(BASE, FUEL), RunEnd::Exited);
    assert_eq!(r.regs.x[1], 0);
    assert_eq!(r.cache.traces.len(), 1);
    assert!(r.cache.traces.contains_key(&BASE));
    let mut fresh = load_program(&prog);
    let code = fresh.jit_code(BASE);
    assert!(code.contains("x4100: for(;;){"));
    assert!(code.contains("continue x4100;"));
    assert_eq!(code.matches("x4100: for(;;){").count(), 1);
    assert_eq!(fresh.interp(BASE, FUEL), RunEnd::Exited);
    assert_eq!(fresh.regs.x[1], 0);
}

#[test]
fn self_modifying_code_is_recompiled() {
    // The store rewrites the word at 0x1018 from `addi x5, x0, 0` to `addi x5, x0, 1`.
    let new_word = addi(5, 0, 1);
    assert_eq!(new_word, 0x0010_0293);
    let mut prog = vec![
        lui(7, 0x1),
        lui(6, 0x100),
        addi(6, 6, 0x293),
        sw(6, 7, 0x18),
        jal(0, 8),
        addi(0, 0, 0),
        addi(5, 0, 0),
    ];
    prog.extend(exit_seq());
    let mut r = load_program(&prog);
    assert_eq!(r.jit_run(BASE, FUEL), RunEnd::Exited);
    assert_eq!(r.regs.x[5], 1);
    assert!(!r.cache.traces.contains_key(&BASE));
    assert!(r.cache.traces.contains_key(&0x1018));
    let mut i = load_program(&prog);
    assert_eq!(i.interp(BASE, FUEL), RunEnd::Exited);
    assert_eq!(i.regs.x[5], 1);
}

#[test]
fn stale_trace_is_recompiled_on_next_entry() {
    let mut prog = vec![addi(1, 0, 3)];
    prog.extend(exit_seq());
    let mut r = load_program(&prog);
    assert_eq!(r.jit_run(BASE, FUEL), RunEnd::Exited);
    let (t, recompiled) = r.prepare(BASE);
    assert!(!recompiled);
    r.cache.insert(t);
    r.mem.store(BASE, 4, addi(1, 0, 4) as u64);
    let (t, recompiled) = r.prepare(BASE);
    assert!(recompiled);
    assert_eq!(t.nodes[0].word, addi(1, 0, 4));
    r.cache.insert(t);
    assert_eq!(r.jit_run(BASE, FUEL), RunEnd::Exited);
    assert_eq!(r.regs.x[1], 4);
}

#[test]
fn repeated_jit_runs_agree() {
    let mut prog = vec![addi(1, 0, 10), addi(1, 1, -1), bne(1, 0, -4), addi(3, 0, 9)];
    prog.extend(exit_seq());
    let mut r = load_program(&prog);
    assert_eq!(r.jit_run(BASE, FUEL), RunEnd::Exited);
    let first = r.regs.x;
    r.regs = vane::cpu::Regs::new();
    assert_eq!(r.jit_run(BASE, FUEL), RunEnd::Exited);
    assert_eq!(r.regs.x, first);
}

#[test]
fn divide_by_zero_program() {
    let mut prog = vec![addi(1, 0, 5), rtype(0, 2, 2, 4, 2), rtype(1, 2, 1, 5, 3)];
    prog.extend(exit_seq());
    let mut r = load_program(&prog);
    assert_eq!(r.interp(BASE, FUEL), RunEnd::Exited);
    assert_eq!(r.regs.x[3], 0xFFFF_FFFF_FFFF_FFFF);
    let mut j = load_program(&prog);
    assert_eq!(j.jit_run(BASE, FUEL), RunEnd::Exited);
    assert_eq!(j.regs.x[3], 0xFFFF_FFFF_FFFF_FFFF);
}

#[test]
fn test_marker_is_logged() {
    let mut prog = vec![addi(0, 0, 42)];
    prog.extend(exit_seq());
    let mut r = load_program(&prog);
    r.test_mode = true;
    let code = r.jit_code(BASE);
    assert!(code.contains("console.log(`[HINT] PC=0x1000: Test case 42`);"));
    assert_eq!(r.interp(BASE, FUEL), RunEnd::Exited);
    assert_eq!(r.hints, vec![(BASE, 42)]);
    for i in 0..32 {
        if i != 17 {
            assert_eq!(r.regs.x[i], 0);
        }
    }
}

#[test]
fn test_marker_ignored_without_test_mode() {
    let mut prog = vec![addi(0, 0, 42)];
    prog.extend(exit_seq());
    let mut r = load_program(&prog);
    assert_eq!(r.interp(BASE, FUEL), RunEnd::Exited);
    assert!(r.hints.is_empty());
    assert!(!r.jit_code(BASE).contains("HINT"));
}

#[test]
fn jalr_clears_low_bit() {
    // x1 = 0x1011 (odd); jalr x2, 0(x1) lands on 0x1010.
    let prog = vec![
        addi(1, 0, 0x11),
        lui(3, 0x1),
        rtype(0, 3, 1, 0, 1),
        jalr(2, 1, 0),
        addi(17, 0, 93),
        ECALL,
    ];
    let mut r = load_program(&prog);
    assert_eq!(r.interp(BASE, FUEL), RunEnd::Exited);
    assert_eq!(r.regs.x[2], BASE + 16);
    let mut j = load_program(&prog);
    assert_eq!(j.jit_run(BASE, FUEL), RunEnd::Exited);
    assert_eq!(j.regs.x[2], BASE + 16);
}

#[test]
fn writes_to_x0_are_dropped() {
    let mut prog = vec![addi(0, 0, 5), rtype(0, 0, 0, 0, 1)];
    prog.extend(exit_seq());
    let mut r = load_program(&prog);
    assert_eq!(r.interp(BASE, FUEL), RunEnd::Exited);
    assert_eq!(r.regs.x[0], 0);
    assert_eq!(r.regs.x[1], 0);
    assert_eq!(r.regs.get(0), 0);
}

#[test]
fn undecodable_word_fails() {
    let mut r = load_program(&[0xffff_ffff]);
    assert_eq!(
        r.interp(BASE, FUEL),
        RunEnd::Failed(VmError::Decode { word: 0xffff_ffff, pc: BASE })
    );
    let mut j = load_program(&[0xffff_ffff]);
    assert_eq!(
        j.jit_run(BASE, FUEL),
        RunEnd::Failed(VmError::Decode { word: 0xffff_ffff, pc: BASE })
    );
}

#[test]
fn ebreak_is_unknown_opcode() {
    let mut r = load_program(&[EBREAK]);
    assert_eq!(r.interp(BASE, FUEL), RunEnd::Failed(VmError::UnknownOpcode { pc: BASE }));
    let mut j = load_program(&[EBREAK]);
    assert_eq!(j.jit_run(BASE, FUEL), RunEnd::Failed(VmError::UnknownOpcode { pc: BASE }));
}

#[test]
fn other_system_calls_continue() {
    let prog = vec![addi(17, 0, 64), ECALL, addi(4, 0, 1), addi(17, 0, 93), ECALL];
    let mut r = load_program(&prog);
    assert_eq!(r.interp(BASE, FUEL), RunEnd::Exited);
    assert_eq!(r.regs.x[4], 1);
}

#[test]
fn fuel_runs_out() {
    let prog = vec![jal(0, 0)];
    let mut r = load_program(&prog);
    assert_eq!(r.interp(BASE, 5), RunEnd::OutOfFuel(BASE));
    let mut j = load_program(&prog);
    assert_eq!(j.jit_run(BASE, 5), RunEnd::OutOfFuel(BASE));
}

#[test]
fn compressed_instruction_advances_two_bytes() {
    // c.li x1, 5 (0x4095) followed by a 4-byte addi at BASE + 2.
    let mut mem = Mem::new();
    mem.store(BASE, 2, 0x4095);
    mem.store(BASE + 2, 4, addi(2, 1, 1) as u64);
    mem.store(BASE + 6, 4, addi(17, 0, 93) as u64);
    mem.store(BASE + 10, 4, ECALL as u64);
    let mut r = Reactor::new_with_mem(mem);
    assert_eq!(r.interp(BASE, FUEL), RunEnd::Exited);
    assert_eq!(r.regs.x[1], 5);
    assert_eq!(r.regs.x[2], 6);
}

#[test]
fn shared_paging_applies_to_loads() {
    let mut mem = Mem::new();
    // Page table at 0x10_0000, security directory at 0x20_0000.
    // Guest page 3 maps to physical page base 0x5_0000 (low bits 0x5_0000 >> 16 == 5).
    mem.store(0x10_0000 + 3 * 8, 8, (0x5_0000u64 << 16) | 1);
    mem.store(0x20_0000 + 8, 8, 0);
    mem.store(0x5_0000 + 0x20, 8, 0x1122_3344_5566_7788);
    mem.paging_mode = vane::mem::PagingMode::Shared;
    mem.shared_page_table_vaddr = Some(0x10_0000);
    mem.shared_security_directory_vaddr = Some(0x20_0000);
    assert_eq!(mem.translate(0x3_0020), Ok(0x5_0000 + 0x20));
    // Code is fetched untranslated at BASE.
    for (i, w) in [lui(1, 0x30), addi(1, 1, 0x20), 0x0000_b103u32, addi(17, 0, 93), ECALL]
        .iter()
        .enumerate()
    {
        mem.store(BASE + 4 * i as u64, 4, *w as u64);
    }
    let mut r = Reactor::new_with_mem(mem);
    assert_eq!(r.interp(BASE, FUEL), RunEnd::Exited);
    assert_eq!(r.regs.x[2], 0x1122_3344_5566_7788);
}

#[test]
fn unset_tables_fail_the_access() {
    let mut mem = Mem::new();
    mem.paging_mode = vane::mem::PagingMode::Both;
    for (i, w) in [0x0000_b103u32].iter().enumerate() {
        mem.store(BASE + 4 * i as u64, 4, *w as u64);
    }
    let mut r = Reactor::new_with_mem(mem);
    assert_eq!(
        r.interp(BASE, FUEL),
        RunEnd::Failed(VmError::TranslationMisconfigured { pc: BASE })
    );
}

fn elf_image(code: &[u32], extra_mem: u64, entry: u64) -> Vec<u8> {
    let mut v: Vec<u8> = Vec::new();
    v.extend_from_slice(&[0x7f, b'E', b'L', b'F', 2, 1, 1, 0, 0, 0, 0, 0, 0, 0, 0, 0]);
    v.extend_from_slice(&2u16.to_le_bytes());
    v.extend_from_slice(&0xf3u16.to_le_bytes());
    v.extend_from_slice(&1u32.to_le_bytes());
    v.extend_from_slice(&entry.to_le_bytes());
    v.extend_from_slice(&64u64.to_le_bytes());
    v.extend_from_slice(&0u64.to_le_bytes());
    v.extend_from_slice(&0u32.to_le_bytes());
    v.extend_from_slice(&64u16.to_le_bytes());
    v.extend_from_slice(&56u16.to_le_bytes());
    v.extend_from_slice(&1u16.to_le_bytes());
    v.extend_from_slice(&64u16.to_le_bytes());
    v.extend_from_slice(&0u16.to_le_bytes());
    v.extend_from_slice(&0u16.to_le_bytes());
    assert_eq!(v.len(), 64);
    let filesz = 4 * code.len() as u64;
    v.extend_from_slice(&1u32.to_le_bytes());
    v.extend_from_slice(&5u32.to_le_bytes());
    v.extend_from_slice(&120u64.to_le_bytes());
    v.extend_from_slice(&BASE.to_le_bytes());
    v.extend_from_slice(&BASE.to_le_bytes());
    v.extend_from_slice(&filesz.to_le_bytes());
    v.extend_from_slice(&(filesz + extra_mem).to_le_bytes());
    v.extend_from_slice(&0x1000u64.to_le_bytes());
    assert_eq!(v.len(), 120);
    for w in code {
        v.extend_from_slice(&w.to_le_bytes());
    }
    v
}

#[test]
fn elf_image_loads_and_runs() {
    let mut prog = vec![addi(1, 0, 7), addi(2, 0, 5), rtype(0, 2, 1, 0, 3)];
    prog.extend(exit_seq());
    let image = elf_image(&prog, 16, BASE);
    let mut mem = Mem::new();
    mem.write_byte(BASE + 4 * prog.len() as u64 + 3, 0xaa);
    let mut r = Reactor::new_with_mem(mem);
    assert_eq!(r.load_elf(&image), Ok(BASE));
    assert_eq!(r.mem.read_byte(BASE + 4 * prog.len() as u64 + 3), 0);
    assert_eq!(r.mem.load(BASE, 4), addi(1, 0, 7) as u64);
    assert_eq!(r.jit_run(BASE, FUEL), RunEnd::Exited);
    assert_eq!(r.regs.x[3], 12);
}

#[test]
fn elf_errors() {
    let mut mem = Mem::new();
    assert_eq!(
        vane::loader::load_elf(&mut mem, &[1, 2, 3, 4]),
        Err(vane::loader::LoadError::Parse)
    );
    let mut image = elf_image(&[ECALL], 0, BASE);
    image.truncate(121);
    assert_eq!(
        vane::loader::load_elf(&mut mem, &image),
        Err(vane::loader::LoadError::SegmentOutOfFile { index: 0 })
    );
    assert!(mem.pages.is_empty());
}

#[test]
fn script_lowering_fragments() {
    let mut prog = vec![addi(1, 0, 7), addi(2, 0, 5), rtype(0, 2, 1, 0, 3), jalr(0, 1, 0)];
    prog.extend(exit_seq());
    let r = load_program(&prog);
    let code = r.jit_code(BASE);
    assert!(code.starts_with("return async function(){let f=$.f,g=0xffff_ffffn,"));
    assert!(code.contains(
        "x4096: for(;;){const p=4096n;if(d(p).getUint32(0,true)!=7340179)\
         {delete $.p[`4096`];return J(p);};(($._r??=$.r)[`x1`]=(0n+7n)&f);"
    ));
    assert!(code.contains(
        "(($._r??=$.r)[`x3`]=((($._r??=$.r)[`x1`]??=0n)+(($._r??=$.r)[`x2`]??=0n))&f);"
    ));
    assert!(code.contains("{let t=((0n+(($._r??=$.r)[`x1`]??=0n))&f)&~1n;4112n;return ()=>J(t);}"));
    assert!(code.ends_with("break x4096;}}"));
}

#[test]
fn cached_root_becomes_continuation() {
    let mut prog = vec![addi(1, 0, 3)];
    prog.extend(exit_seq());
    let mut r = load_program(&prog);
    assert_eq!(r.jit_run(BASE, FUEL), RunEnd::Exited);
    assert!(r.cache.traces.contains_key(&BASE));
    let code = r.jit_code(BASE);
    assert!(code.ends_with(";return J(4096n);}"));
    assert!(!code.contains("for(;;)"));
}

#[test]
fn long_straight_line_stays_in_one_trace() {
    let mut prog = Vec::new();
    for _ in 0..100 {
        prog.push(addi(1, 1, 1));
    }
    prog.extend(exit_seq());
    let r = load_program(&prog);
    let code = r.jit_code(BASE);
    // 100 adds, the exit sequence, and the undecodable word after it.
    assert_eq!(code.matches(": for(;;){").count(), 103);
    // Only the fingerprint guards return to the cache; no address is cut off.
    assert_eq!(code.matches("return J(").count(), 103);
    assert_eq!(code.matches("return J(p);").count(), 103);
}

#[test]
fn dispatch_keeps_valid_trace_cached() {
    let mut prog = vec![addi(1, 1, 1), jalr(0, 2, 0)];
    prog.extend(exit_seq());
    let mut r = load_program(&prog);
    r.regs.x[2] = BASE + 8;
    let (_, _, fresh) = r.dispatch(BASE, FUEL);
    assert!(fresh);
    assert!(r.cache.traces.contains_key(&BASE));
    let (_, _, fresh) = r.dispatch(BASE, FUEL);
    assert!(!fresh);
    assert!(r.cache.traces.contains_key(&BASE));
    assert_eq!(r.regs.x[1], 2);
}

#[test]
fn store_across_page_allocates_both_pages() {
    // x1 = 0xfffe; x2 = 0x11223344; sw x2, 0(x1) writes 0xfffe..0x10001.
    let prog = vec![
        lui(1, 0x10),
        addi(1, 1, -2),
        lui(2, 0x11223),
        addi(2, 2, 0x344),
        sw(2, 1, 0),
        addi(17, 0, 93),
        ECALL,
    ];
    let mut r = load_program(&prog);
    assert_eq!(r.interp(BASE, FUEL), RunEnd::Exited);
    assert!(r.mem.pages.contains_key(&0));
    assert!(r.mem.pages.contains_key(&1));
    assert_eq!(r.mem.load(0xfffe, 4), 0x1122_3344);
    assert_eq!(r.mem.read_byte(0x1_0001), 0x11);
}

#[test]
fn wasm_opcode_shape() {
    let r = load_program(&[ECALL]);
    let flate = ReleaseFlate {};
    let params = Params { react: &r, flate: &flate, root: BASE, flags: r.flags() };
    let t = TemplateJit { params, pc: BASE, depth: 3 };
    let mut labels = Labels(BTreeMap::new());
    assert_eq!(
        t.jit_wasm(&labels, vec![WasmOp::End]),
        vec![WasmOp::Loop, WasmOp::End, WasmOp::End]
    );
    labels.0.insert(BASE, Label { ident_name: "x4096".to_string(), index: 1 });
    assert_eq!(t.jit_wasm(&labels, vec![]), vec![WasmOp::Br { relative_depth: 2 }]);
}
