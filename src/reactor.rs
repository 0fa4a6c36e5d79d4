use crate::cpu::{decoded_wf, exec_spec, execute, store_pages_allocated, Outcome, Regs, VmError};
use crate::decode::{decode, decode_spec, lift_spec, DecodeFault, Decoded, Instruction};
use crate::hint::detect_test_marker;
use crate::flate::ReleaseFlate;
use crate::jit::{compile, BlockCache, Heat, Trace};
use crate::riscv::{jit_code, JitCtx};
use crate::template::Flags;
use crate::mem::{load_spec, paging_of, Mem, Paging};
use vstd::prelude::*;

verus! {

/// The instruction word at `pc`: the four bytes there, little-endian.
pub open spec fn fetch_spec(m: Map<u64, u8>, pc: u64) -> u32 {
    load_spec(m, pc, 4) as u32
}

/// Fetches the instruction word at `pc`.
pub fn fetch_word(mem: &Mem, pc: u64) -> (w: u32)
    requires
        mem.wf(),
    ensures
        w == fetch_spec(mem@, pc),
{
    let v = mem.load(pc, 4);
    #[verifier::truncate]
    (v as u32)
}

/// Every instruction that decodes has a length of 2 or 4 and a store width of 1, 2, 4 or 8.
pub proof fn lemma_decoded_wf(w: u32)
    ensures
        decode_spec(w) is Ok ==> decoded_wf(decode_spec(w)->Ok_0),
{
    if let Ok((i, c)) = crate::decode::rv64_decoded(w) {
        assert(decoded_wf(Decoded { inst: lift_spec(i), len: decode_spec(w)->Ok_0.len }));
    }
}

/// A compiled instruction whose fingerprint matches the word now at `pc`
/// executes exactly as the interpreter's step at `pc` does.
pub proof fn lemma_compiled_step_matches(
    r: Seq<u64>,
    m: Map<u64, u8>,
    p: Paging,
    pc: u64,
    word: u32,
    d: Decoded,
)
    requires
        word == fetch_spec(m, pc),
        decode_spec(word) == Ok::<Decoded, DecodeFault>(d),
    ensures
        exec_spec(r, m, p, pc, d) == step_spec(r, m, p, pc),
{
    reveal(step_spec);
}

/// The effect of the interpreter's step at `pc`: fetch, decode, execute.
/// A word that does not decode fails the run and changes nothing.
#[verifier::opaque]
pub open spec fn step_spec(r: Seq<u64>, m: Map<u64, u8>, p: Paging, pc: u64) -> (
    Seq<u64>,
    Map<u64, u8>,
    Outcome,
) {
    let w = fetch_spec(m, pc);
    match decode_spec(w) {
        Ok(d) => exec_spec(r, m, p, pc, d),
        Err(_) => (r, m, Outcome::Fault(VmError::Decode { word: w, pc })),
    }
}

/// The marker log `log` after the instruction `i` at `pc` executes: in test
/// mode a test-case marker appends `(pc, case number)`.
pub open spec fn hint_log(log: Seq<(u64, i64)>, test_mode: bool, pc: u64, i: Instruction) -> Seq<
    (u64, i64),
> {
    match crate::hint::test_marker_spec(i) {
        Some(v) => if test_mode {
            log.push((pc, v))
        } else {
            log
        },
        None => log,
    }
}

/// How a bounded run ends.
#[derive(Debug, Clone, Copy, PartialEq, Eq, Structural)]
pub enum RunEnd {
    /// The guest issued the exit system call.
    Exited,
    /// The run failed.
    Failed(VmError),
    /// The step budget ran out with the guest about to execute at this address.
    OutOfFuel(u64),
}

/// Registers, memory and end of a run of at most `fuel` instructions from `pc`.
pub open spec fn run_spec(r: Seq<u64>, m: Map<u64, u8>, p: Paging, pc: u64, fuel: nat) -> (
    Seq<u64>,
    Map<u64, u8>,
    RunEnd,
)
    decreases fuel,
{
    if fuel == 0 {
        (r, m, RunEnd::OutOfFuel(pc))
    } else {
        let (r2, m2, o) = step_spec(r, m, p, pc);
        match o {
            Outcome::Continue(n) => run_spec(r2, m2, p, n, (fuel - 1) as nat),
            Outcome::Exit => (r2, m2, RunEnd::Exited),
            Outcome::Fault(e) => (r2, m2, RunEnd::Failed(e)),
        }
    }
}

/// Owns the guest memory, the registers and the compiled-block cache, and
/// runs guest code by interpretation or through compiled traces.
pub struct Reactor {
    pub mem: Mem,
    pub regs: Regs,
    pub cache: BlockCache,
    /// Record test-case markers met during a run.
    pub test_mode: bool,
    /// The markers met, as (address, case number), oldest first.
    pub hints: Vec<(u64, i64)>,
}

impl Reactor {
    pub open spec fn wf(&self) -> bool {
        &&& self.mem.wf()
        &&& self.regs.wf()
        &&& self.cache.wf()
    }

    /// The translator configuration of the reactor's memory.
    pub open spec fn paging(&self) -> Paging {
        paging_of(self.mem)
    }

    /// A reactor over `mem` with zeroed registers and an empty cache.
    pub fn new_with_mem(mem: Mem) -> (r: Self)
        requires
            mem.wf(),
        ensures
            r.wf(),
            r.mem == mem,
            r.regs@ == Seq::new(32, |i: int| 0u64),
            r.cache@ == Map::<u64, crate::jit::Trace>::empty(),
            !r.test_mode,
            r.hints@ == Seq::<(u64, i64)>::empty(),
    {
        Reactor {
            mem,
            regs: Regs::new(),
            cache: BlockCache::new(),
            test_mode: false,
            hints: Vec::new(),
        }
    }

    /// Records a test-case marker when test mode is on.
    fn note_hint(&mut self, pc: u64, inst: &Instruction)
        requires
            old(self).wf(),
        ensures
            final(self).hints@ == hint_log(old(self).hints@, old(self).test_mode, pc, *inst),
            final(self).wf(),
            final(self).mem == old(self).mem,
            final(self).regs == old(self).regs,
            final(self).cache == old(self).cache,
            final(self).test_mode == old(self).test_mode,
    {
        if self.test_mode {
            match detect_test_marker(inst) {
                Some(v) => self.hints.push((pc, v)),
                None => {},
            }
        }
    }

    /// Executes a decoded instruction at `pc`, noting it if it is a test marker.
    pub fn exec_decoded(&mut self, pc: u64, d: Decoded) -> (o: Outcome)
        requires
            old(self).wf(),
            decoded_wf(d),
        ensures
            final(self).wf(),
            final(self).cache == old(self).cache,
            final(self).test_mode == old(self).test_mode,
            final(self).paging() == old(self).paging(),
            final(self).hints@ == hint_log(old(self).hints@, old(self).test_mode, pc, d.inst),
            old(self).mem.allocated_pages().subset_of(final(self).mem.allocated_pages()),
            store_pages_allocated(
                old(self).regs@,
                old(self).mem@,
                old(self).paging(),
                d,
                final(self).mem.allocated_pages(),
            ),
            (final(self).regs@, final(self).mem@, o) == exec_spec(
                old(self).regs@,
                old(self).mem@,
                old(self).paging(),
                pc,
                d,
            ),
    {
        self.note_hint(pc, &d.inst);
        execute(&mut self.mem, &mut self.regs, pc, d)
    }

    /// Fetches the instruction word at `pc`.
    pub fn fetch(&self, pc: u64) -> (w: u32)
        requires
            self.mem.wf(),
        ensures
            w == fetch_spec(self.mem@, pc),
    {
        fetch_word(&self.mem, pc)
    }

    /// One interpreter step at `pc`.
    pub fn step(&mut self, pc: u64) -> (o: Outcome)
        requires
            old(self).wf(),
        ensures
            final(self).wf(),
            final(self).cache == old(self).cache,
            final(self).test_mode == old(self).test_mode,
            final(self).paging() == old(self).paging(),
            final(self).hints@ == match decode_spec(fetch_spec(old(self).mem@, pc)) {
                Ok(d) => hint_log(old(self).hints@, old(self).test_mode, pc, d.inst),
                Err(_) => old(self).hints@,
            },
            old(self).mem.allocated_pages().subset_of(final(self).mem.allocated_pages()),
            match decode_spec(fetch_spec(old(self).mem@, pc)) {
                Ok(d) => store_pages_allocated(
                    old(self).regs@,
                    old(self).mem@,
                    old(self).paging(),
                    d,
                    final(self).mem.allocated_pages(),
                ),
                Err(_) => true,
            },
            (final(self).regs@, final(self).mem@, o) == step_spec(
                old(self).regs@,
                old(self).mem@,
                old(self).paging(),
                pc,
            ),
    {
        proof {
            reveal(step_spec);
        }
        let w = self.fetch(pc);
        match decode(w) {
            Ok(d) => {
                proof {
                    lemma_decoded_wf(w);
                }
                self.exec_decoded(pc, d)
            },
            Err(_) => Outcome::Fault(VmError::Decode { word: w, pc }),
        }
    }

    /// Interprets guest code from `pc` until it exits, fails, or has executed
    /// `fuel` instructions.
    pub fn interp(&mut self, pc: u64, fuel: u64) -> (r: RunEnd)
        requires
            old(self).wf(),
        ensures
            final(self).wf(),
            final(self).cache == old(self).cache,
            final(self).paging() == old(self).paging(),
            old(self).mem.allocated_pages().subset_of(final(self).mem.allocated_pages()),
            (final(self).regs@, final(self).mem@, r) == run_spec(
                old(self).regs@,
                old(self).mem@,
                old(self).paging(),
                pc,
                fuel as nat,
            ),
    {
        let ghost target = run_spec(
            self.regs@,
            self.mem@,
            self.paging(),
            pc,
            fuel as nat,
        );
        let mut cur = pc;
        let mut left = fuel;
        while left > 0
            invariant
                self.wf(),
                self.cache == old(self).cache,
                self.paging() == old(self).paging(),
                old(self).mem.allocated_pages().subset_of(self.mem.allocated_pages()),
                target == run_spec(
                    old(self).regs@,
                    old(self).mem@,
                    old(self).paging(),
                    pc,
                    fuel as nat,
                ),
                run_spec(self.regs@, self.mem@, self.paging(), cur, left as nat) == target,
            decreases left,
        {
            let ghost r0 = self.regs@;
            let ghost m0 = self.mem@;
            let o = self.step(cur);
            proof {
                let (r2, m2, o2) = step_spec(r0, m0, self.paging(), cur);
                assert(r2 == self.regs@ && m2 == self.mem@ && o2 == o);
                assert(run_spec(r0, m0, self.paging(), cur, left as nat) == match o2 {
                    Outcome::Continue(n) => run_spec(r2, m2, self.paging(), n, (left - 1) as nat),
                    Outcome::Exit => (r2, m2, RunEnd::Exited),
                    Outcome::Fault(e) => (r2, m2, RunEnd::Failed(e)),
                });
            }
            left = left - 1;
            match o {
                Outcome::Continue(n) => {
                    cur = n;
                },
                Outcome::Exit => {
                    return RunEnd::Exited;
                },
                Outcome::Fault(e) => {
                    return RunEnd::Failed(e);
                },
            }
        }
        RunEnd::OutOfFuel(cur)
    }

    /// The trace to run at `pc`: the cached one if its fingerprint still
    /// matches the word at `pc`, else a fresh compilation (the stale one is
    /// evicted). The trace is taken out of the cache while it runs; the
    /// second component tells whether it was compiled anew.
    pub fn prepare(&mut self, pc: u64) -> (r: (Trace, bool))
        requires
            old(self).wf(),
        ensures
            final(self).wf(),
            final(self).mem == old(self).mem,
            final(self).regs == old(self).regs,
            final(self).test_mode == old(self).test_mode,
            final(self).cache@ == old(self).cache@.remove(pc),
            r.0.wf(),
            r.0.root == pc,
            r.0.fingerprint() == fetch_spec(old(self).mem@, pc),
            r.1 <==> !(old(self).cache@.contains_key(pc) && old(self).cache@[pc].fingerprint()
                == fetch_spec(old(self).mem@, pc)),
            !r.1 ==> r.0 == old(self).cache@[pc],
    {
        let w = self.fetch(pc);
        match self.cache.take(pc) {
            Some(t) => {
                if t.nodes[0].word == w {
                    (t, false)
                } else {
                    (compile(&self.mem, &self.cache, pc), true)
                }
            },
            None => (compile(&self.mem, &self.cache, pc), true),
        }
    }

    /// Runs trace `t` from its label `pc` for at most `fuel` instructions.
    /// Each instruction is first checked against its fingerprint; control
    /// stays in the trace while the next address has a label in it. Returns
    /// where it stopped and the fuel left.
    pub fn run_trace(&mut self, t: &Trace, pc: u64, fuel: u64) -> (r: (TraceExit, u64))
        requires
            old(self).wf(),
            t.wf(),
        ensures
            final(self).wf(),
            final(self).cache == old(self).cache,
            final(self).paging() == old(self).paging(),
            old(self).mem.allocated_pages().subset_of(final(self).mem.allocated_pages()),
            r.1 <= fuel,
            match r.0 {
                TraceExit::Leave(n) | TraceExit::Invalidated(n) => run_spec(
                    final(self).regs@,
                    final(self).mem@,
                    final(self).paging(),
                    n,
                    r.1 as nat,
                ) == run_spec(old(self).regs@, old(self).mem@, old(self).paging(), pc, fuel as nat),
                TraceExit::End(e) => (final(self).regs@, final(self).mem@, e) == run_spec(
                    old(self).regs@,
                    old(self).mem@,
                    old(self).paging(),
                    pc,
                    fuel as nat,
                ),
            },
            (fuel > 0 && t.root == pc && t.fingerprint() == fetch_spec(old(self).mem@, pc)) ==> r.1
                < fuel,
    {
        let ghost target = run_spec(self.regs@, self.mem@, self.paging(), pc, fuel as nat);
        let ghost valid_root = fuel > 0 && t.root == pc && t.fingerprint() == fetch_spec(
            self.mem@,
            pc,
        );
        let ghost mut first = true;
        let mut cur = pc;
        let mut left = fuel;
        loop
            invariant
                self.wf(),
                t.wf(),
                self.cache == old(self).cache,
                self.paging() == old(self).paging(),
                old(self).mem.allocated_pages().subset_of(self.mem.allocated_pages()),
                left <= fuel,
                target == run_spec(
                    old(self).regs@,
                    old(self).mem@,
                    old(self).paging(),
                    pc,
                    fuel as nat,
                ),
                valid_root == (fuel > 0 && t.root == pc && t.fingerprint() == fetch_spec(
                    old(self).mem@,
                    pc,
                )),
                run_spec(self.regs@, self.mem@, self.paging(), cur, left as nat) == target,
                first ==> (cur == pc && left == fuel && self.mem@ == old(self).mem@),
                !first ==> left < fuel,
            decreases left,
        {
            if left == 0 {
                return (TraceExit::End(RunEnd::OutOfFuel(cur)), 0);
            }
            let i = match t.find(cur) {
                Some(i) => i,
                None => {
                    return (TraceExit::Leave(cur), left);
                },
            };
            let node = t.nodes[i];
            let w = self.fetch(cur);
            proof {
                if first && valid_root {
                    assert(t.nodes@[0].pc == t.nodes@[i as int].pc);
                }
            }
            if w != node.word {
                return (TraceExit::Invalidated(cur), left);
            }
            let ghost r0 = self.regs@;
            let ghost m0 = self.mem@;
            proof {
                reveal(step_spec);
                assert(node.decoded == decode_spec(w));
            }
            match node.decoded {
                Err(_) => {
                    return (TraceExit::End(RunEnd::Failed(VmError::Decode { word: w, pc: cur })), left
                        - 1);
                },
                Ok(d) => {
                    proof {
                        lemma_decoded_wf(w);
                    }
                    let o = self.exec_decoded(cur, d);
                    proof {
                        let (r2, m2, o2) = step_spec(r0, m0, self.paging(), cur);
                        assert(r2 == self.regs@ && m2 == self.mem@ && o2 == o);
                        assert(run_spec(r0, m0, self.paging(), cur, left as nat) == match o2 {
                            Outcome::Continue(n) => run_spec(
                                r2,
                                m2,
                                self.paging(),
                                n,
                                (left - 1) as nat,
                            ),
                            Outcome::Exit => (r2, m2, RunEnd::Exited),
                            Outcome::Fault(e) => (r2, m2, RunEnd::Failed(e)),
                        });
                        first = false;
                    }
                    left = left - 1;
                    match o {
                        Outcome::Continue(n) => {
                            cur = n;
                        },
                        Outcome::Exit => {
                            return (TraceExit::End(RunEnd::Exited), left);
                        },
                        Outcome::Fault(e) => {
                            return (TraceExit::End(RunEnd::Failed(e)), left);
                        },
                    }
                },
            }
        }
    }

    /// One dispatch through the cache at `pc`: takes the cached trace whose
    /// fingerprint still matches (else compiles one), runs it with at most
    /// `fuel` instructions, and stores it back under `pc` unless its
    /// fingerprint check failed, which evicts it. Returns where the run
    /// stopped, the fuel left, and whether the trace was compiled anew.
    pub fn dispatch(&mut self, pc: u64, fuel: u64) -> (r: (TraceExit, u64, bool))
        requires
            old(self).wf(),
        ensures
            final(self).wf(),
            final(self).paging() == old(self).paging(),
            old(self).mem.allocated_pages().subset_of(final(self).mem.allocated_pages()),
            r.1 <= fuel,
            fuel > 0 ==> r.1 < fuel,
            match r.0 {
                TraceExit::Leave(n) | TraceExit::Invalidated(n) => run_spec(
                    final(self).regs@,
                    final(self).mem@,
                    final(self).paging(),
                    n,
                    r.1 as nat,
                ) == run_spec(old(self).regs@, old(self).mem@, old(self).paging(), pc, fuel as nat),
                TraceExit::End(e) => (final(self).regs@, final(self).mem@, e) == run_spec(
                    old(self).regs@,
                    old(self).mem@,
                    old(self).paging(),
                    pc,
                    fuel as nat,
                ),
            },
            r.2 <==> !(old(self).cache@.contains_key(pc) && old(self).cache@[pc].fingerprint()
                == fetch_spec(old(self).mem@, pc)),
            r.0 is Invalidated ==> final(self).cache@ == old(self).cache@.remove(pc),
            !(r.0 is Invalidated) ==> final(self).cache@.contains_key(pc)
                && final(self).cache@.remove(pc) == old(self).cache@.remove(pc),
            !(r.0 is Invalidated) && !r.2 ==> final(self).cache@ == old(self).cache@,
    {
        let (t, fresh) = self.prepare(pc);
        let (exit, rest) = self.run_trace(&t, pc, fuel);
        match exit {
            TraceExit::Invalidated(_) => {},
            _ => {
                self.cache.insert(t);
                proof {
                    assert(self.cache@.remove(pc) =~= old(self).cache@.remove(pc));
                    if !fresh {
                        assert(self.cache@ =~= old(self).cache@);
                    }
                }
            },
        }
        (exit, rest, fresh)
    }

    /// Runs guest code from `pc` through compiled traces until it exits,
    /// fails, or has executed `fuel` instructions. Each address reached from
    /// outside a trace is looked up in the cache; a missing or stale trace is
    /// compiled anew. The result is the interpreter's, whatever the cache held.
    pub fn jit_run(&mut self, pc: u64, fuel: u64) -> (r: RunEnd)
        requires
            old(self).wf(),
        ensures
            final(self).wf(),
            final(self).paging() == old(self).paging(),
            old(self).mem.allocated_pages().subset_of(final(self).mem.allocated_pages()),
            (final(self).regs@, final(self).mem@, r) == run_spec(
                old(self).regs@,
                old(self).mem@,
                old(self).paging(),
                pc,
                fuel as nat,
            ),
    {
        let ghost target = run_spec(self.regs@, self.mem@, self.paging(), pc, fuel as nat);
        let mut cur = pc;
        let mut left = fuel;
        while left > 0
            invariant
                self.wf(),
                self.paging() == old(self).paging(),
                old(self).mem.allocated_pages().subset_of(self.mem.allocated_pages()),
                target == run_spec(
                    old(self).regs@,
                    old(self).mem@,
                    old(self).paging(),
                    pc,
                    fuel as nat,
                ),
                run_spec(self.regs@, self.mem@, self.paging(), cur, left as nat) == target,
            decreases left,
        {
            let (exit, rest, _) = self.dispatch(cur, left);
            match exit {
                TraceExit::Leave(n) | TraceExit::Invalidated(n) => {
                    cur = n;
                    left = rest;
                },
                TraceExit::End(e) => {
                    return e;
                },
            }
        }
        RunEnd::OutOfFuel(cur)
    }
}

/// Where running a trace stopped.
#[derive(Debug, Clone, Copy, PartialEq, Eq, Structural)]
pub enum TraceExit {
    /// Control reached an address that has no label in the trace.
    Leave(u64),
    /// The word at this address no longer matches its fingerprint: the trace is stale.
    Invalidated(u64),
    /// The run ended.
    End(RunEnd),
}

impl JitCtx for Reactor {
    open spec fn ctx_wf(&self) -> bool {
        self.mem.wf()
    }

    open spec fn word_spec(&self, a: u64) -> u32 {
        fetch_spec(self.mem@, a)
    }

    open spec fn heat_spec(&self, a: u64) -> Heat {
        if self.cache@.contains_key(a) {
            Heat::Cached
        } else {
            Heat::New
        }
    }

    fn word(&self, a: u64) -> (r: u32) {
        fetch_word(&self.mem, a)
    }

    fn heat(&self, a: u64) -> (r: Heat) {
        self.cache.heat(a)
    }
}

impl Reactor {
    /// Loads the loadable segments of an ELF image into the reactor's memory
    /// and returns its entry point.
    pub fn load_elf(&mut self, data: &[u8]) -> (r: Result<u64, crate::loader::LoadError>)
        requires
            old(self).wf(),
        ensures
            final(self).wf(),
            final(self).regs == old(self).regs,
            final(self).paging() == old(self).paging(),
            match crate::loader::elf_headers(data@) {
                None => r == Err::<u64, crate::loader::LoadError>(crate::loader::LoadError::Parse)
                    && final(self).mem@ == old(self).mem@,
                Some((entry, segs)) => if forall|k: int|
                    0 <= k < segs.len() ==> crate::loader::segment_fits(
                        #[trigger] segs[k],
                        data@.len(),
                    ) {
                    r == Ok::<u64, crate::loader::LoadError>(entry) && final(self).mem@
                        == crate::loader::load_image(old(self).mem@, segs, data@, segs.len())
                } else {
                    final(self).mem@ == old(self).mem@ && r is Err
                },
            },
    {
        crate::loader::load_elf(&mut self.mem, data)
    }

    /// The code-generation flags of this reactor: its test mode and its
    /// memory's paging configuration.
    pub fn flags(&self) -> (r: Flags)
        ensures
            r == Flags::with_paging_spec(
                self.test_mode,
                self.mem.paging_mode,
                self.mem.shared_page_table_vaddr,
                self.mem.shared_security_directory_vaddr,
                self.mem.use_32bit_paging,
                self.mem.use_multilevel_paging,
            ),
    {
        Flags::with_paging(
            self.test_mode,
            self.mem.paging_mode,
            self.mem.shared_page_table_vaddr,
            self.mem.shared_security_directory_vaddr,
            self.mem.use_32bit_paging,
            self.mem.use_multilevel_paging,
        )
    }

    /// The host script for the trace rooted at `pc`, with one-letter helper names.
    pub fn jit_code(&self, pc: u64) -> (s: String)
        requires
            self.mem.wf(),
        ensures
            s@ == crate::template::core_js(
                "f"@,
                "g"@,
                "s"@,
                "u"@,
                crate::template::data_function_js(self.flags_spec(), "d"@),
                crate::riscv::trace_js(
                    self,
                    crate::riscv::flate_names(&ReleaseFlate {}),
                    self.flags_spec(),
                    pc,
                    Map::empty(),
                    pc,
                ),
            ),
    {
        let f = ReleaseFlate {};
        proof {
            reveal_strlit("max64");
            reveal_strlit("max32");
            reveal_strlit("signed");
            reveal_strlit("unsigned");
            reveal_strlit("data");
            reveal_strlit("f");
            reveal_strlit("g");
            reveal_strlit("s");
            reveal_strlit("u");
            reveal_strlit("d");
            assert("max32"@[3] != "max64"@[3]);
            assert("signed"@.len() != "max64"@.len() && "signed"@.len() != "max32"@.len());
            assert("unsigned"@.len() != "max64"@.len() && "unsigned"@.len() != "max32"@.len()
                && "unsigned"@.len() != "signed"@.len());
            assert("data"@.len() != "max64"@.len() && "data"@.len() != "max32"@.len()
                && "data"@.len() != "signed"@.len() && "data"@.len() != "unsigned"@.len());
            assert(crate::flate::release_alias("max64"@) == "f"@);
            assert(crate::flate::release_alias("max32"@) == "g"@);
            assert(crate::flate::release_alias("signed"@) == "s"@);
            assert(crate::flate::release_alias("unsigned"@) == "u"@);
            assert(crate::flate::release_alias("data"@) == "d"@);
        }
        jit_code(self, &f, self.flags(), pc)
    }

    pub open spec fn flags_spec(&self) -> Flags {
        Flags::with_paging_spec(
            self.test_mode,
            self.mem.paging_mode,
            self.mem.shared_page_table_vaddr,
            self.mem.shared_security_directory_vaddr,
            self.mem.use_32bit_paging,
            self.mem.use_multilevel_paging,
        )
    }
}

} // verus!
