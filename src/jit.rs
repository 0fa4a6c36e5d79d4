//! Trace compilation and the compiled-block cache.
//!
//! A trace is compiled from one entry address and holds every instruction
//! reachable from it by fall-through and by branches and jumps with constant
//! targets, each decoded once and keyed by its address (its label within the
//! trace). Jumps between labels stay inside the trace; an indirect jump, a
//! target already cached as another trace, or a trace grown to its size bound
//! leaves it with a continuation. Each instruction keeps the word it was
//! compiled from as a fingerprint and is checked against memory before it
//! runs; a mismatch evicts the whole trace.

use crate::decode::{decode, decode_spec, DecodeFault, Decoded, Instruction};
use crate::mem::Mem;
use crate::reactor::{fetch_spec, fetch_word};
use std::collections::BTreeMap;
use vstd::prelude::*;

verus! {

broadcast use vstd::laws_cmp::group_laws_cmp, vstd::std_specs::btree::group_btree_axioms;

/// Most instructions compiled into one trace.
pub const MAX_TRACE_LEN: usize = 256;

/// Whether the cache already holds a trace at an address.
#[derive(Debug, Clone, Copy, PartialEq, Eq, Structural)]
pub enum Heat {
    New,
    Cached,
}

/// One compiled instruction.
#[derive(Debug, Clone, Copy)]
pub struct Node {
    /// Its address, which is its label within the trace.
    pub pc: u64,
    /// The instruction word it was compiled from (its fingerprint).
    pub word: u32,
    /// What that word decodes to.
    pub decoded: Result<Decoded, DecodeFault>,
}

/// A compiled trace rooted at `root`.
#[derive(Debug, Clone)]
pub struct Trace {
    pub root: u64,
    pub nodes: Vec<Node>,
}

impl Trace {
    /// The first node is the root; addresses are unique; every node holds the
    /// decoding of its fingerprint.
    pub open spec fn wf(&self) -> bool {
        &&& 1 <= self.nodes@.len() <= MAX_TRACE_LEN
        &&& self.nodes@[0].pc == self.root
        &&& forall|i: int, j: int|
            0 <= i < self.nodes@.len() && 0 <= j < self.nodes@.len() && #[trigger] self.nodes@[i].pc
                == #[trigger] self.nodes@[j].pc ==> i == j
        &&& forall|i: int|
            0 <= i < self.nodes@.len() ==> #[trigger] self.nodes@[i].decoded == decode_spec(
                self.nodes@[i].word,
            )
    }

    /// The fingerprint of the trace: the word at its root when it was compiled.
    pub open spec fn fingerprint(&self) -> u32 {
        self.nodes@[0].word
    }

    /// The index of the node labelled `pc`.
    pub fn find(&self, pc: u64) -> (r: Option<usize>)
        ensures
            match r {
                Some(i) => i < self.nodes@.len() && self.nodes@[i as int].pc == pc,
                None => forall|i: int| 0 <= i < self.nodes@.len() ==> self.nodes@[i].pc != pc,
            },
    {
        let mut i: usize = 0;
        while i < self.nodes.len()
            invariant
                0 <= i <= self.nodes@.len(),
                forall|k: int| 0 <= k < i ==> self.nodes@[k].pc != pc,
            decreases self.nodes@.len() - i,
        {
            if self.nodes[i].pc == pc {
                return Some(i);
            }
            i = i + 1;
        }
        None
    }
}

/// The addresses that control may reach directly after `d` at `pc`, that is
/// without a register-dependent target: none after an indirect jump, an
/// unsupported instruction or a word that does not decode.
pub open spec fn successors_spec(pc: u64, d: Result<Decoded, DecodeFault>) -> Seq<u64> {
    match d {
        Ok(d) => {
            let next = pc.wrapping_add(d.len);
            match d.inst {
                Instruction::Jal { offset, .. } => seq![pc.wrapping_add(offset) & !1u64],
                Instruction::Jalr { .. } | Instruction::Unsupported => seq![],
                Instruction::Branch { offset, .. } => seq![next, pc.wrapping_add(offset)],
                _ => seq![next],
            }
        },
        Err(_) => seq![],
    }
}

pub(crate) fn successors(pc: u64, d: Result<Decoded, DecodeFault>) -> (r: Vec<u64>)
    ensures
        r@ == successors_spec(pc, d),
{
    match d {
        Ok(d) => {
            let next = pc.wrapping_add(d.len);
            match d.inst {
                Instruction::Jal { offset, .. } => vec![pc.wrapping_add(offset) & !1u64],
                Instruction::Jalr { .. } | Instruction::Unsupported => vec![],
                Instruction::Branch { offset, .. } => vec![next, pc.wrapping_add(offset)],
                _ => vec![next],
            }
        },
        Err(_) => vec![],
    }
}

/// Compiled traces by root address.
pub struct BlockCache {
    pub traces: BTreeMap<u64, Trace>,
}

impl View for BlockCache {
    type V = Map<u64, Trace>;

    open spec fn view(&self) -> Map<u64, Trace> {
        self.traces@
    }
}

impl BlockCache {
    /// Each trace is well formed and stored under its root.
    pub open spec fn wf(&self) -> bool {
        forall|k: u64| #[trigger]
            self@.contains_key(k) ==> self@[k].wf() && self@[k].root == k
    }

    pub fn new() -> (r: Self)
        ensures
            r.wf(),
            r@ == Map::<u64, Trace>::empty(),
    {
        BlockCache { traces: BTreeMap::new() }
    }

    /// Whether a trace is cached at `pc`.
    pub fn heat(&self, pc: u64) -> (r: Heat)
        ensures
            r == (if self@.contains_key(pc) {
                Heat::Cached
            } else {
                Heat::New
            }),
    {
        if self.traces.contains_key(&pc) {
            Heat::Cached
        } else {
            Heat::New
        }
    }

    /// Removes and returns the trace cached at `pc`.
    pub fn take(&mut self, pc: u64) -> (r: Option<Trace>)
        requires
            old(self).wf(),
        ensures
            final(self).wf(),
            final(self)@ == old(self)@.remove(pc),
            r == (if old(self)@.contains_key(pc) {
                Some(old(self)@[pc])
            } else {
                None
            }),
    {
        let r = self.traces.remove(&pc);
        proof {
            assert forall|k: u64| #[trigger] self@.contains_key(k) implies self@[k].wf()
                && self@[k].root == k by {
                assert(old(self)@.contains_key(k));
            }
        }
        r
    }

    /// Caches `t` under its root.
    pub fn insert(&mut self, t: Trace)
        requires
            old(self).wf(),
            t.wf(),
        ensures
            final(self).wf(),
            final(self)@ == old(self)@.insert(t.root, t),
    {
        let root = t.root;
        self.traces.insert(root, t);
        proof {
            assert forall|k: u64| #[trigger] self@.contains_key(k) implies self@[k].wf()
                && self@[k].root == k by {
                if k != root {
                    assert(old(self)@.contains_key(k));
                }
            }
        }
    }
}

/// Whether control leaving node `i` of `nodes` directly for `s` stays
/// described: `s` has a node, is another trace's root in `cache`, or the
/// trace is full.
pub open spec fn successor_covered(nodes: Seq<Node>, cache: Map<u64, Trace>, root: u64, s: u64) -> bool {
    (exists|j: int| 0 <= j < nodes.len() && #[trigger] nodes[j].pc == s) || (s != root
        && cache.contains_key(s)) || nodes.len() == MAX_TRACE_LEN
}

/// Compiles the trace rooted at `root` from the current memory. Addresses
/// already cached as other traces are left out, to be reached through the
/// cache.
pub fn compile(mem: &Mem, cache: &BlockCache, root: u64) -> (t: Trace)
    requires
        mem.wf(),
    ensures
        t.wf(),
        t.root == root,
        t.fingerprint() == fetch_spec(mem@, root),
        forall|i: int|
            0 <= i < t.nodes@.len() ==> #[trigger] t.nodes@[i].word == fetch_spec(
                mem@,
                t.nodes@[i].pc,
            ),
        forall|i: int, k: int|
            0 <= i < t.nodes@.len() && 0 <= k < successors_spec(
                t.nodes@[i].pc,
                t.nodes@[i].decoded,
            ).len() ==> successor_covered(
                t.nodes@,
                cache@,
                root,
                #[trigger] successors_spec(t.nodes@[i].pc, t.nodes@[i].decoded)[k],
            ),
{
    let mut nodes: Vec<Node> = Vec::new();
    let mut work: Vec<u64> = vec![root];
    while work.len() > 0 && nodes.len() < MAX_TRACE_LEN
        invariant
            mem.wf(),
            nodes@.len() <= MAX_TRACE_LEN,
            nodes@.len() == 0 ==> work@ == seq![root],
            nodes@.len() > 0 ==> nodes@[0].pc == root,
            forall|i: int, j: int|
                0 <= i < nodes@.len() && 0 <= j < nodes@.len() && #[trigger] nodes@[i].pc
                    == #[trigger] nodes@[j].pc ==> i == j,
            forall|i: int|
                0 <= i < nodes@.len() ==> #[trigger] nodes@[i].decoded == decode_spec(
                    nodes@[i].word,
                ) && nodes@[i].word == fetch_spec(mem@, nodes@[i].pc),
            forall|i: int, k: int|
                0 <= i < nodes@.len() && 0 <= k < successors_spec(
                    nodes@[i].pc,
                    nodes@[i].decoded,
                ).len() ==> work@.contains(
                    #[trigger] successors_spec(nodes@[i].pc, nodes@[i].decoded)[k],
                ) || successor_covered(
                    nodes@,
                    cache@,
                    root,
                    successors_spec(nodes@[i].pc, nodes@[i].decoded)[k],
                ),
        decreases MAX_TRACE_LEN - nodes@.len(), work@.len(),
    {
        let ghost work_before = work@;
        let pc = work.pop().unwrap();
        let t = Trace { root, nodes };
        let seen = t.find(pc);
        nodes = t.nodes;
        let skip = match seen {
            Some(_) => true,
            None => pc != root && cache.heat(pc) == Heat::Cached,
        };
        if !skip {
            let word = fetch_word(mem, pc);
            let decoded = decode(word);
            let ghost before = nodes@;
            nodes.push(Node { pc, word, decoded });
            proof {
                assert forall|i: int, j: int|
                    0 <= i < nodes@.len() && 0 <= j < nodes@.len() && #[trigger] nodes@[i].pc
                        == #[trigger] nodes@[j].pc implies i == j by {
                    if i < before.len() && j < before.len() {
                        assert(before[i].pc == before[j].pc);
                    }
                }
            }
            let next = successors(pc, decoded);
            let ghost work_mid = work@;
            let mut more = next.clone();
            work.append(&mut more);
            proof {
                assert(work@ =~= work_mid + next@);
                assert forall|i: int, k: int|
                    0 <= i < nodes@.len() && 0 <= k < successors_spec(
                        nodes@[i].pc,
                        nodes@[i].decoded,
                    ).len() implies work@.contains(
                    #[trigger] successors_spec(nodes@[i].pc, nodes@[i].decoded)[k],
                ) || successor_covered(
                    nodes@,
                    cache@,
                    root,
                    successors_spec(nodes@[i].pc, nodes@[i].decoded)[k],
                ) by {
                    let sk = successors_spec(nodes@[i].pc, nodes@[i].decoded)[k];
                    if i == nodes@.len() - 1 {
                        assert(work@[work_mid.len() + k] == sk);
                    } else {
                        assert(nodes@[i] == before[i]);
                        if work_before.contains(sk) {
                            let w = choose|w: int| 0 <= w < work_before.len() && work_before[w] == sk;
                            if w < work_mid.len() {
                                assert(work@[w] == sk);
                            } else {
                                assert(sk == pc);
                                assert(nodes@[nodes@.len() - 1].pc == sk);
                            }
                        } else if exists|j: int| 0 <= j < before.len() && #[trigger] before[j].pc == sk {
                            let j = choose|j: int| 0 <= j < before.len() && #[trigger] before[j].pc == sk;
                            assert(nodes@[j].pc == sk);
                        }
                    }
                }
            }
        } else {
            proof {
                assert forall|i: int, k: int|
                    0 <= i < nodes@.len() && 0 <= k < successors_spec(
                        nodes@[i].pc,
                        nodes@[i].decoded,
                    ).len() implies work@.contains(
                    #[trigger] successors_spec(nodes@[i].pc, nodes@[i].decoded)[k],
                ) || successor_covered(
                    nodes@,
                    cache@,
                    root,
                    successors_spec(nodes@[i].pc, nodes@[i].decoded)[k],
                ) by {
                    let sk = successors_spec(nodes@[i].pc, nodes@[i].decoded)[k];
                    if work_before.contains(sk) && sk != pc {
                        let w = choose|w: int| 0 <= w < work_before.len() && work_before[w] == sk;
                        assert(w < work@.len());
                        assert(work@[w] == sk);
                    }
                    if sk == pc {
                        match seen {
                            Some(j) => {
                                assert(nodes@[j as int].pc == sk);
                            },
                            None => {},
                        }
                    }
                }
            }
        }
    }
    let t = Trace { root, nodes };
    proof {
        if t.nodes@.len() == 0 {
            assert(false);
        }
        assert forall|i: int| 0 <= i < t.nodes@.len() implies #[trigger] t.nodes@[i].word
            == fetch_spec(mem@, t.nodes@[i].pc) by {
            assert(t.nodes@[i].decoded == decode_spec(t.nodes@[i].word));
        }
    }
    t
}

} // verus!
