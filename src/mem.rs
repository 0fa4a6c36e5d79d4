use std::collections::BTreeMap;
use vstd::prelude::*;

verus! {

broadcast use vstd::laws_cmp::group_laws_cmp, vstd::std_specs::btree::group_btree_axioms;

/// Size in bytes of one page of guest memory.
pub const PAGE_SIZE: usize = 65536;

/// Which translator sits between a guest address and the byte store.
#[derive(Debug, Clone, Copy, PartialEq, Eq, Structural)]
pub enum PagingMode {
    /// Identity translation with on-demand page allocation.
    Legacy,
    /// A page-table translator layered over the legacy store.
    Shared,
    /// Like `Shared`, with the translator's tables stored in legacy memory.
    Both,
}

impl Default for PagingMode {
    fn default() -> (r: Self)
        ensures
            r == PagingMode::Legacy,
    {
        PagingMode::Legacy
    }
}

/// Errors of the address translator.
#[derive(Debug, Clone, Copy, PartialEq, Eq, Structural)]
pub enum MemError {
    /// A shared translation was asked for while a base address is unset.
    TranslationMisconfigured,
}

/// The address `a + i`, wrapping at 2^64.
pub open spec fn at(a: u64, i: int) -> u64 {
    ((a as int + i) % 0x1_0000_0000_0000_0000int) as u64
}

/// 256 to the power `n`.
pub open spec fn pow256(n: nat) -> nat
    decreases n,
{
    if n == 0 {
        1
    } else {
        256 * pow256((n - 1) as nat)
    }
}

/// The little-endian number held by the `n` bytes of `m` from `a` on.
pub open spec fn le_bytes(m: Map<u64, u8>, a: u64, n: nat) -> nat
    decreases n,
{
    if n == 0 {
        0
    } else {
        (le_bytes(m, a, (n - 1) as nat) + m[at(a, n - 1)] * pow256((n - 1) as nat)) as nat
    }
}

/// Byte `i` (from the least significant) of `v`.
pub open spec fn byte_of(v: u64, i: nat) -> u8 {
    ((v as nat / pow256(i)) % 256) as u8
}

/// `m` after the low `n` bytes of `v` are stored little-endian from `a` on.
pub open spec fn store_bytes(m: Map<u64, u8>, a: u64, n: nat, v: u64) -> Map<u64, u8>
    decreases n,
{
    if n == 0 {
        m
    } else {
        store_bytes(m, a, (n - 1) as nat, v).insert(at(a, n - 1), byte_of(v, (n - 1) as nat))
    }
}

/// The `n`-byte little-endian value at `a`, as a 64-bit word.
#[verifier::opaque]
pub open spec fn load_spec(m: Map<u64, u8>, a: u64, n: nat) -> u64 {
    le_bytes(m, a, n) as u64
}

pub open spec fn page_of(a: u64) -> u64 {
    a >> 16
}

pub open spec fn offset_of(a: u64) -> u64 {
    a & 0xffff
}

/// Single-level translation with 64-bit entries.
pub open spec fn shared_spec(m: Map<u64, u8>, pt: u64, sd: u64, v: u64) -> u64 {
    let pp = load_spec(m, at(pt, (v >> 16) * 8), 8);
    let sec = load_spec(m, at(sd, (pp & 0xffff) * 8), 8);
    at(((sec >> 48) << 48) | (pp >> 16), (v & 0xffff) as int)
}

/// Three-level translation with 64-bit table entries and 32-bit directory entries.
pub open spec fn multilevel_spec(m: Map<u64, u8>, l3: u64, sd: u64, v: u64) -> u64 {
    let l2 = load_spec(m, at(l3, ((v >> 48) & 0xffff) * 8), 8);
    let l1 = load_spec(m, at(l2, ((v >> 32) & 0xffff) * 8), 8);
    let pp = load_spec(m, at(l1, ((v >> 16) & 0xffff) * 8), 8);
    let sec = load_spec(m, at(sd, (pp & 0xffff) * 4), 4);
    at((((sec >> 16) & 0xffff) << 48) | (pp >> 16), (v & 0xffff) as int)
}

/// Single-level translation with 32-bit entries.
pub open spec fn shared32_spec(m: Map<u64, u8>, pt: u64, sd: u64, v: u64) -> u64 {
    let pp = load_spec(m, at(pt, (v >> 16) * 4), 4);
    let sec = load_spec(m, at(sd, (pp & 0xff) * 4), 4);
    at(((sec >> 24) << 24) | (pp >> 8), (v & 0xffff) as int)
}

/// Three-level translation with 32-bit entries.
pub open spec fn multilevel32_spec(m: Map<u64, u8>, l3: u64, sd: u64, v: u64) -> u64 {
    let l2 = load_spec(m, at(l3, ((v >> 48) & 0xffff) * 4), 4);
    let l1 = load_spec(m, at(l2, ((v >> 32) & 0xffff) * 4), 4);
    let pp = load_spec(m, at(l1, ((v >> 16) & 0xffff) * 4), 4);
    let sec = load_spec(m, at(sd, (pp & 0xff) * 4), 4);
    at(((sec >> 24) << 24) | (pp >> 8), (v & 0xffff) as int)
}

proof fn lemma_page_offset_unique(x: u64, y: u64)
    ensures
        (page_of(x) == page_of(y) && offset_of(x) == offset_of(y)) <==> x == y,
        offset_of(x) < 65536,
{
    assert(((x >> 16) == (y >> 16) && (x & 0xffff) == (y & 0xffff)) <==> x == y)
        by (bit_vector);
    assert((x & 0xffff) < 65536) by (bit_vector);
}

proof fn lemma_pow256_facts(n: nat)
    ensures
        pow256(n) >= 1,
        n <= 8 ==> pow256(n) <= 0x1_0000_0000_0000_0000,
        n < 8 ==> pow256(n) <= 0x100_0000_0000_0000,
    decreases n,
{
    reveal_with_fuel(pow256, 9);
    if n > 0 {
        lemma_pow256_facts((n - 1) as nat);
    }
}

proof fn lemma_le_bytes_bound(m: Map<u64, u8>, a: u64, n: nat)
    ensures
        le_bytes(m, a, n) < pow256(n),
    decreases n,
{
    if n > 0 {
        let k = (n - 1) as nat;
        lemma_le_bytes_bound(m, a, k);
        let p = pow256(k);
        let b = m[at(a, k as int)] as int;
        assert(le_bytes(m, a, k) + b * p < 256 * p) by (nonlinear_arith)
            requires
                le_bytes(m, a, k) < p,
                0 <= b < 256,
        ;
    }
}

/// Sparse byte-addressed guest memory: 64 KiB pages allocated on first write.
pub struct Mem {
    /// Allocated pages by page number; each holds `PAGE_SIZE` bytes.
    pub pages: BTreeMap<u64, Vec<u8>>,
    /// Translator selection.
    pub paging_mode: PagingMode,
    /// Guest address of the page table (or of the top-level table).
    pub shared_page_table_vaddr: Option<u64>,
    /// Guest address of the security directory.
    pub shared_security_directory_vaddr: Option<u64>,
    /// Table entries are 32 bits wide instead of 64.
    pub use_32bit_paging: bool,
    /// Walk three levels of tables instead of one.
    pub use_multilevel_paging: bool,
}

impl View for Mem {
    type V = Map<u64, u8>;

    /// Every address holds a byte; unallocated ones read as zero.
    closed spec fn view(&self) -> Map<u64, u8> {
        Map::new(|a: u64| true, |a: u64| self.spec_byte(a))
    }
}

impl Default for Mem {
    fn default() -> (r: Self)
        ensures
            r.wf(),
            r@ == Map::new(|a: u64| true, |a: u64| 0u8),
            r.paging_mode == PagingMode::Legacy,
            r.shared_page_table_vaddr is None,
            r.shared_security_directory_vaddr is None,
            !r.use_32bit_paging,
            !r.use_multilevel_paging,
            r.allocated_pages() == Set::<u64>::empty(),
    {
        Mem::new()
    }
}

impl Mem {
    /// Every allocated page holds exactly one page of bytes.
    pub closed spec fn wf(&self) -> bool {
        forall|k: u64| #[trigger]
            self.pages@.contains_key(k) ==> self.pages@[k]@.len() == PAGE_SIZE
    }

    closed spec fn spec_byte(&self, a: u64) -> u8 {
        if self.pages@.contains_key(page_of(a)) {
            self.pages@[page_of(a)]@[offset_of(a) as int]
        } else {
            0
        }
    }

    /// The page numbers that have been allocated.
    pub open spec fn allocated_pages(&self) -> Set<u64> {
        self.pages@.dom()
    }

    /// An empty memory in legacy mode.
    pub fn new() -> (r: Self)
        ensures
            r.wf(),
            r@ == Map::new(|a: u64| true, |a: u64| 0u8),
            r.paging_mode == PagingMode::Legacy,
            r.shared_page_table_vaddr is None,
            r.shared_security_directory_vaddr is None,
            !r.use_32bit_paging,
            !r.use_multilevel_paging,
            r.allocated_pages() == Set::<u64>::empty(),
    {
        let r = Mem {
            pages: BTreeMap::new(),
            paging_mode: PagingMode::Legacy,
            shared_page_table_vaddr: None,
            shared_security_directory_vaddr: None,
            use_32bit_paging: false,
            use_multilevel_paging: false,
        };
        assert(r@ =~= Map::new(|a: u64| true, |a: u64| 0u8));
        r
    }

    /// Reads the byte at `addr`; an unallocated page reads as zero and stays unallocated.
    pub fn read_byte(&self, addr: u64) -> (r: u8)
        requires
            self.wf(),
        ensures
            r == self@[addr],
            !self.allocated_pages().contains(page_of(addr)) ==> r == 0,
    {
        proof {
            lemma_page_offset_unique(addr, addr);
        }
        match self.pages.get(&(addr >> 16)) {
            Some(page) => page[(addr & 0xffff) as usize],
            None => 0,
        }
    }

    /// Writes `value` at `addr`, allocating its page first if needed.
    pub fn write_byte(&mut self, addr: u64, value: u8)
        requires
            old(self).wf(),
        ensures
            final(self).wf(),
            final(self)@ == old(self)@.insert(addr, value),
            final(self).allocated_pages() == old(self).allocated_pages().insert(page_of(addr)),
            final(self).paging_mode == old(self).paging_mode,
            final(self).shared_page_table_vaddr == old(self).shared_page_table_vaddr,
            final(self).shared_security_directory_vaddr == old(
                self,
            ).shared_security_directory_vaddr,
            final(self).use_32bit_paging == old(self).use_32bit_paging,
            final(self).use_multilevel_paging == old(self).use_multilevel_paging,
    {
        let key = addr >> 16;
        let ghost before = self.pages@;
        let mut page = match self.pages.remove(&key) {
            Some(p) => p,
            None => vec![0u8; PAGE_SIZE],
        };
        let ghost fresh = page@;
        proof {
            lemma_page_offset_unique(addr, addr);
        }
        page.set((addr & 0xffff) as usize, value);
        self.pages.insert(key, page);
        proof {
            assert forall|a: u64| #![auto] self.spec_byte(a) == old(self)@.insert(addr, value)[a] by {
                lemma_page_offset_unique(a, addr);
                if page_of(a) == key && a != addr {
                    if !before.contains_key(key) {
                        assert(fresh[offset_of(a) as int] == 0u8);
                    }
                }
            }
            assert(self@ =~= old(self)@.insert(addr, value));
            assert(self.allocated_pages() =~= old(self).allocated_pages().insert(page_of(addr)));
        }
    }

    /// Allocates the page holding `a` if it is not yet allocated, and returns the byte there.
    pub fn get_page(&mut self, a: u64) -> (r: u8)
        requires
            old(self).wf(),
        ensures
            final(self).wf(),
            r == old(self)@[a],
            final(self)@ == old(self)@,
            final(self).allocated_pages() == old(self).allocated_pages().insert(page_of(a)),
            final(self).paging_mode == old(self).paging_mode,
            final(self).shared_page_table_vaddr == old(self).shared_page_table_vaddr,
            final(self).shared_security_directory_vaddr == old(
                self,
            ).shared_security_directory_vaddr,
            final(self).use_32bit_paging == old(self).use_32bit_paging,
            final(self).use_multilevel_paging == old(self).use_multilevel_paging,
    {
        let v = self.read_byte(a);
        self.write_byte(a, v);
        proof {
            assert(old(self)@.insert(a, v) =~= old(self)@);
        }
        v
    }

    /// Reads `n` bytes from `a` on (wrapping at the top of the address space)
    /// as a little-endian number.
    pub fn load(&self, a: u64, n: u64) -> (r: u64)
        requires
            self.wf(),
            1 <= n <= 8,
        ensures
            r == load_spec(self@, a, n as nat),
            r as nat == le_bytes(self@, a, n as nat),
    {
        let mut v: u64 = 0;
        let mut p: u64 = 1;
        let mut i: u64 = 0;
        while i < n
            invariant
                self.wf(),
                1 <= n <= 8,
                0 <= i <= n,
                v as nat == le_bytes(self@, a, i as nat),
                i < n ==> p as nat == pow256(i as nat),
            decreases n - i,
        {
            let b = self.read_byte(a.wrapping_add(i));
            proof {
                lemma_le_bytes_bound(self@, a, i as nat);
                lemma_pow256_facts(i as nat);
                lemma_pow256_facts((i + 1) as nat);
                assert(a.wrapping_add(i) == at(a, i as int));
                assert(v + b * p < 256 * p) by (nonlinear_arith)
                    requires
                        v < p,
                        0 <= b < 256,
                ;
                assert(b * p <= 255 * p) by (nonlinear_arith)
                    requires
                        0 <= b < 256,
                        p >= 1,
                ;
            }
            v = v + b as u64 * p;
            if i + 1 < n {
                p = p * 256;
            }
            i = i + 1;
        }
        proof {
            lemma_le_bytes_bound(self@, a, n as nat);
            reveal(load_spec);
        }
        v
    }

    /// Stores the low `n` bytes of `v` little-endian from `a` on (wrapping at
    /// the top of the address space), allocating pages as needed.
    pub fn store(&mut self, a: u64, n: u64, v: u64)
        requires
            old(self).wf(),
            1 <= n <= 8,
        ensures
            final(self).wf(),
            final(self)@ == store_bytes(old(self)@, a, n as nat, v),
            forall|i: int|
                0 <= i < n ==> final(self).allocated_pages().contains(#[trigger] page_of(at(a, i))),
            old(self).allocated_pages().subset_of(final(self).allocated_pages()),
            final(self).paging_mode == old(self).paging_mode,
            final(self).shared_page_table_vaddr == old(self).shared_page_table_vaddr,
            final(self).shared_security_directory_vaddr == old(
                self,
            ).shared_security_directory_vaddr,
            final(self).use_32bit_paging == old(self).use_32bit_paging,
            final(self).use_multilevel_paging == old(self).use_multilevel_paging,
    {
        let mut rest: u64 = v;
        let mut i: u64 = 0;
        assert(pow256(0) == 1);
        assert(v as nat / 1 == v as nat) by (nonlinear_arith);
        while i < n
            invariant
                self.wf(),
                1 <= n <= 8,
                0 <= i <= n,
                rest as nat == v as nat / pow256(i as nat),
                self@ == store_bytes(old(self)@, a, i as nat, v),
                forall|k: int|
                    0 <= k < i ==> self.allocated_pages().contains(#[trigger] page_of(at(a, k))),
                old(self).allocated_pages().subset_of(self.allocated_pages()),
                self.paging_mode == old(self).paging_mode,
                self.shared_page_table_vaddr == old(self).shared_page_table_vaddr,
                self.shared_security_directory_vaddr == old(self).shared_security_directory_vaddr,
                self.use_32bit_paging == old(self).use_32bit_paging,
                self.use_multilevel_paging == old(self).use_multilevel_paging,
            decreases n - i,
        {
            proof {
                lemma_pow256_facts(i as nat);
                assert(a.wrapping_add(i) == at(a, i as int));
            }
            self.write_byte(a.wrapping_add(i), (rest % 256) as u8);
            proof {
                vstd::arithmetic::div_mod::lemma_div_denominator(
                    v as int,
                    pow256(i as nat) as int,
                    256,
                );
                assert(pow256((i + 1) as nat) == pow256(i as nat) * 256);
            }
            rest = rest / 256;
            i = i + 1;
        }
    }

    /// Walks the single-level table with 64-bit entries.
    pub fn translate_shared(&self, vaddr: u64) -> (r: Result<u64, MemError>)
        requires
            self.wf(),
        ensures
            match (self.shared_page_table_vaddr, self.shared_security_directory_vaddr) {
                (Some(pt), Some(sd)) => r == Ok::<u64, MemError>(shared_spec(self@, pt, sd, vaddr)),
                _ => r == Err::<u64, MemError>(MemError::TranslationMisconfigured),
            },
    {
        let (pt_base, sec_dir_base) = match (
            self.shared_page_table_vaddr,
            self.shared_security_directory_vaddr,
        ) {
            (Some(pt), Some(sd)) => (pt, sd),
            _ => return Err(MemError::TranslationMisconfigured),
        };
        let page_num = vaddr >> 16;
        let page_offset = vaddr & 0xFFFF;
        proof {
            assert(vaddr >> 16 <= 0xffff_ffff_ffff) by (bit_vector);
        }
        let page_pointer = self.load(pt_base.wrapping_add(page_num * 8), 8);
        let sec_idx = page_pointer & 0xFFFF;
        let page_base_low48 = page_pointer >> 16;
        proof {
            assert(page_pointer & 0xFFFF <= 0xFFFF) by (bit_vector);
        }
        let sec_entry = self.load(sec_dir_base.wrapping_add(sec_idx * 8), 8);
        let page_base_top16 = sec_entry >> 48;
        let phys_page_base = (page_base_top16 << 48) | page_base_low48;
        Ok(phys_page_base.wrapping_add(page_offset))
    }

    /// Walks three levels of tables with 64-bit entries; the security
    /// directory holds 32-bit entries.
    pub fn translate_shared_multilevel(&self, vaddr: u64) -> (r: Result<u64, MemError>)
        requires
            self.wf(),
        ensures
            match (self.shared_page_table_vaddr, self.shared_security_directory_vaddr) {
                (Some(pt), Some(sd)) => r == Ok::<u64, MemError>(
                    multilevel_spec(self@, pt, sd, vaddr),
                ),
                _ => r == Err::<u64, MemError>(MemError::TranslationMisconfigured),
            },
    {
        let (l3_table_vaddr, sec_dir_base) = match (
            self.shared_page_table_vaddr,
            self.shared_security_directory_vaddr,
        ) {
            (Some(pt), Some(sd)) => (pt, sd),
            _ => return Err(MemError::TranslationMisconfigured),
        };
        proof {
            assert((vaddr >> 48) & 0xFFFF <= 0xFFFF) by (bit_vector);
            assert((vaddr >> 32) & 0xFFFF <= 0xFFFF) by (bit_vector);
            assert((vaddr >> 16) & 0xFFFF <= 0xFFFF) by (bit_vector);
        }
        let ghost m = self@;
        let l3_idx = (vaddr >> 48) & 0xFFFF;
        let l2_table_vaddr = self.load(l3_table_vaddr.wrapping_add(l3_idx * 8), 8);
        assert(l2_table_vaddr == load_spec(m, at(l3_table_vaddr, ((vaddr >> 48) & 0xffff) * 8), 8));
        let l2_idx = (vaddr >> 32) & 0xFFFF;
        let l1_table_vaddr = self.load(l2_table_vaddr.wrapping_add(l2_idx * 8), 8);
        assert(l1_table_vaddr == load_spec(m, at(l2_table_vaddr, ((vaddr >> 32) & 0xffff) * 8), 8));
        let l1_idx = (vaddr >> 16) & 0xFFFF;
        let page_pointer = self.load(l1_table_vaddr.wrapping_add(l1_idx * 8), 8);
        assert(page_pointer == load_spec(m, at(l1_table_vaddr, ((vaddr >> 16) & 0xffff) * 8), 8));
        let sec_idx = page_pointer & 0xFFFF;
        let page_base_low48 = page_pointer >> 16;
        proof {
            assert(page_pointer & 0xFFFF <= 0xFFFF) by (bit_vector);
        }
        let sec_entry = self.load(sec_dir_base.wrapping_add(sec_idx * 4), 4);
        let page_base_top16 = (sec_entry >> 16) & 0xFFFF;
        let phys_page_base = (page_base_top16 << 48) | page_base_low48;
        Ok(phys_page_base.wrapping_add(vaddr & 0xFFFF))
    }

    /// Walks the single-level table with 32-bit entries.
    pub fn translate_shared_32(&self, vaddr: u64) -> (r: Result<u64, MemError>)
        requires
            self.wf(),
        ensures
            match (self.shared_page_table_vaddr, self.shared_security_directory_vaddr) {
                (Some(pt), Some(sd)) => r == Ok::<u64, MemError>(
                    shared32_spec(self@, pt, sd, vaddr),
                ),
                _ => r == Err::<u64, MemError>(MemError::TranslationMisconfigured),
            },
    {
        let (pt_base, sec_dir_base) = match (
            self.shared_page_table_vaddr,
            self.shared_security_directory_vaddr,
        ) {
            (Some(pt), Some(sd)) => (pt, sd),
            _ => return Err(MemError::TranslationMisconfigured),
        };
        let page_num = vaddr >> 16;
        let page_offset = vaddr & 0xFFFF;
        proof {
            assert(vaddr >> 16 <= 0xffff_ffff_ffff) by (bit_vector);
        }
        let ghost m = self@;
        let page_pointer = self.load(pt_base.wrapping_add(page_num * 4), 4);
        assert(page_pointer == load_spec(m, at(pt_base, (vaddr >> 16) * 4), 4));
        let sec_idx = page_pointer & 0xFF;
        let page_base_low24 = page_pointer >> 8;
        proof {
            assert(page_pointer & 0xFF <= 0xFF) by (bit_vector);
        }
        let sec_entry = self.load(sec_dir_base.wrapping_add(sec_idx * 4), 4);
        assert(sec_entry == load_spec(m, at(sec_dir_base, (page_pointer & 0xff) * 4), 4));
        let page_base_top8 = sec_entry >> 24;
        let phys_page_base = (page_base_top8 << 24) | page_base_low24;
        Ok(phys_page_base.wrapping_add(page_offset))
    }

    /// Walks three levels of tables with 32-bit entries.
    pub fn translate_shared_multilevel_32(&self, vaddr: u64) -> (r: Result<u64, MemError>)
        requires
            self.wf(),
        ensures
            match (self.shared_page_table_vaddr, self.shared_security_directory_vaddr) {
                (Some(pt), Some(sd)) => r == Ok::<u64, MemError>(
                    multilevel32_spec(self@, pt, sd, vaddr),
                ),
                _ => r == Err::<u64, MemError>(MemError::TranslationMisconfigured),
            },
    {
        let (l3_table_vaddr, sec_dir_base) = match (
            self.shared_page_table_vaddr,
            self.shared_security_directory_vaddr,
        ) {
            (Some(pt), Some(sd)) => (pt, sd),
            _ => return Err(MemError::TranslationMisconfigured),
        };
        proof {
            assert((vaddr >> 48) & 0xFFFF <= 0xFFFF) by (bit_vector);
            assert((vaddr >> 32) & 0xFFFF <= 0xFFFF) by (bit_vector);
            assert((vaddr >> 16) & 0xFFFF <= 0xFFFF) by (bit_vector);
        }
        let ghost m = self@;
        let l3_idx = (vaddr >> 48) & 0xFFFF;
        let l2_table_vaddr = self.load(l3_table_vaddr.wrapping_add(l3_idx * 4), 4);
        assert(l2_table_vaddr == load_spec(m, at(l3_table_vaddr, ((vaddr >> 48) & 0xffff) * 4), 4));
        let l2_idx = (vaddr >> 32) & 0xFFFF;
        let l1_table_vaddr = self.load(l2_table_vaddr.wrapping_add(l2_idx * 4), 4);
        assert(l1_table_vaddr == load_spec(m, at(l2_table_vaddr, ((vaddr >> 32) & 0xffff) * 4), 4));
        let l1_idx = (vaddr >> 16) & 0xFFFF;
        let page_pointer = self.load(l1_table_vaddr.wrapping_add(l1_idx * 4), 4);
        assert(page_pointer == load_spec(m, at(l1_table_vaddr, ((vaddr >> 16) & 0xffff) * 4), 4));
        let sec_idx = page_pointer & 0xFF;
        let page_base_low24 = page_pointer >> 8;
        proof {
            assert(page_pointer & 0xFF <= 0xFF) by (bit_vector);
        }
        let sec_entry = self.load(sec_dir_base.wrapping_add(sec_idx * 4), 4);
        let page_base_top8 = sec_entry >> 24;
        let phys_page_base = (page_base_top8 << 24) | page_base_low24;
        Ok(phys_page_base.wrapping_add(vaddr & 0xFFFF))
    }

    /// The translation selected by the paging flags: identity in legacy
    /// mode, otherwise the table walk that the width and depth flags name.
    pub fn translate(&self, vaddr: u64) -> (r: Result<u64, MemError>)
        requires
            self.wf(),
        ensures
            r == translate_spec(self@, paging_of(*self), vaddr),
    {
        match self.paging_mode {
            PagingMode::Legacy => Ok(vaddr),
            _ => {
                if self.use_multilevel_paging {
                    if self.use_32bit_paging {
                        self.translate_shared_multilevel_32(vaddr)
                    } else {
                        self.translate_shared_multilevel(vaddr)
                    }
                } else {
                    if self.use_32bit_paging {
                        self.translate_shared_32(vaddr)
                    } else {
                        self.translate_shared(vaddr)
                    }
                }
            },
        }
    }

    /// Script that computes the single-level translation of the address expression
    /// `vaddr_var`, with table and security directory bases given as expressions.
    pub fn generate_shared_paging_js(
        &self,
        vaddr_var: &str,
        page_table_vaddr_var: &str,
        security_directory_vaddr_var: &str,
    ) -> (r: String)
        ensures
            r@ == shared_paging_js(vaddr_var@, page_table_vaddr_var@, security_directory_vaddr_var@),
    {
        let mut s = String::new();
        s.append("((v,pt,sd)=>{let page_num=v>>16n;let entry_addr=pt+(page_num<<3n);let page_pointer=0n;for(let i=0n;i<8n;i++){page_pointer|=(BigInt(new Uint8Array($._sys('memory').buffer,$.get_page(entry_addr+i),1)[0])<<(i*8n));}let sec_idx=page_pointer&0xFFFFn;let page_base_low48=page_pointer>>16n;let sec_entry_addr=sd+(sec_idx<<3n);let sec_entry=0n;for(let i=0n;i<8n;i++){sec_entry|=(BigInt(new Uint8Array($._sys('memory').buffer,$.get_page(sec_entry_addr+i),1)[0])<<(i*8n));}let page_base_top16=sec_entry>>48n;let phys_page_base=(page_base_top16<<48n)|page_base_low48;return phys_page_base+(v&0xFFFFn);})(");
        s.append(vaddr_var);
        s.append(",");
        s.append(page_table_vaddr_var);
        s.append(",");
        s.append(security_directory_vaddr_var);
        s.append(")");
        proof {
            assert(s@ =~= shared_paging_js(vaddr_var@, page_table_vaddr_var@, security_directory_vaddr_var@));
        }
        s
    }

    /// Script that computes the three-level translation of the address expression
    /// `vaddr_var`, with table and security directory bases given as expressions.
    pub fn generate_multilevel_paging_js(
        &self,
        vaddr_var: &str,
        l3_table_vaddr_var: &str,
        security_directory_vaddr_var: &str,
    ) -> (r: String)
        ensures
            r@ == multilevel_paging_js(vaddr_var@, l3_table_vaddr_var@, security_directory_vaddr_var@),
    {
        let mut s = String::new();
        s.append("((v,l3,sd)=>{let read_u64=(addr)=>{let val=0n;for(let i=0n;i<8n;i++){val|=(BigInt(new Uint8Array($._sys('memory').buffer,$.get_page(addr+i),1)[0])<<(i*8n));}return val;};let l3_idx=(v>>48n)&0xFFFFn;let l2_table_vaddr=read_u64(l3+(l3_idx<<3n));let l2_idx=(v>>32n)&0xFFFFn;let l1_table_vaddr=read_u64(l2_table_vaddr+(l2_idx<<3n));let l1_idx=(v>>16n)&0xFFFFn;let page_pointer=read_u64(l1_table_vaddr+(l1_idx<<3n));let sec_idx=page_pointer&0xFFFFn;let page_base_low48=page_pointer>>16n;let sec_entry_addr=sd+(sec_idx<<2n);let sec_entry=0;for(let i=0;i<4;i++){sec_entry|=(new Uint8Array($._sys('memory').buffer,$.get_page(sec_entry_addr+BigInt(i)),1)[0]<<(i*8));}let page_base_top16=BigInt(sec_entry>>>16);let phys_page_base=(page_base_top16<<48n)|page_base_low48;return phys_page_base+(v&0xFFFFn);})(");
        s.append(vaddr_var);
        s.append(",");
        s.append(l3_table_vaddr_var);
        s.append(",");
        s.append(security_directory_vaddr_var);
        s.append(")");
        proof {
            assert(s@ =~= multilevel_paging_js(vaddr_var@, l3_table_vaddr_var@, security_directory_vaddr_var@));
        }
        s
    }

    /// Selects the translator, keeping the contents and the allocated pages.
    pub fn set_paging(
        &mut self,
        mode: PagingMode,
        page_table: Option<u64>,
        security_directory: Option<u64>,
        use_32bit: bool,
        multilevel: bool,
    )
        requires
            old(self).wf(),
        ensures
            final(self).wf(),
            final(self)@ == old(self)@,
            final(self).pages == old(self).pages,
            paging_of(*final(self)) == (Paging {
                mode,
                page_table,
                security_directory,
                use_32bit,
                multilevel,
            }),
    {
        self.paging_mode = mode;
        self.shared_page_table_vaddr = page_table;
        self.shared_security_directory_vaddr = security_directory;
        self.use_32bit_paging = use_32bit;
        self.use_multilevel_paging = multilevel;
        proof {
            lemma_contents_follow_pages(*old(self), *self);
        }
    }

    /// Offset of `vaddr` in a flat host memory that lays guest pages out in
    /// order from `wasm_memory_base` on.
    pub fn translate_to_wasm_legacy(&self, vaddr: u64, wasm_memory_base: u64) -> (r: u64)
        ensures
            r == at(wasm_memory_base, (vaddr >> 16) * 65536 + (vaddr & 0xFFFF)),
            r == at(wasm_memory_base, vaddr as int),
    {
        let page_num = vaddr >> 16;
        let page_offset = vaddr & 0xFFFF;
        proof {
            assert((vaddr >> 16) * 65536 + (vaddr & 0xFFFF) == vaddr) by (bit_vector);
        }
        wasm_memory_base.wrapping_add(page_num * 65536 + page_offset)
    }
}

/// Script for the single-level table walk, applied to the expressions `v` (address),
/// `t` (table base) and `sd` (security directory base).
pub open spec fn shared_paging_js(v: Seq<char>, t: Seq<char>, sd: Seq<char>) -> Seq<char> {
    "((v,pt,sd)=>{let page_num=v>>16n;let entry_addr=pt+(page_num<<3n);let page_pointer=0n;for(let i=0n;i<8n;i++){page_pointer|=(BigInt(new Uint8Array($._sys('memory').buffer,$.get_page(entry_addr+i),1)[0])<<(i*8n));}let sec_idx=page_pointer&0xFFFFn;let page_base_low48=page_pointer>>16n;let sec_entry_addr=sd+(sec_idx<<3n);let sec_entry=0n;for(let i=0n;i<8n;i++){sec_entry|=(BigInt(new Uint8Array($._sys('memory').buffer,$.get_page(sec_entry_addr+i),1)[0])<<(i*8n));}let page_base_top16=sec_entry>>48n;let phys_page_base=(page_base_top16<<48n)|page_base_low48;return phys_page_base+(v&0xFFFFn);})("@
        + v
        + ","@
        + t
        + ","@
        + sd
        + ")"@
}

/// Script for the three-level table walk, applied to the expressions `v` (address),
/// `t` (table base) and `sd` (security directory base).
pub open spec fn multilevel_paging_js(v: Seq<char>, t: Seq<char>, sd: Seq<char>) -> Seq<char> {
    "((v,l3,sd)=>{let read_u64=(addr)=>{let val=0n;for(let i=0n;i<8n;i++){val|=(BigInt(new Uint8Array($._sys('memory').buffer,$.get_page(addr+i),1)[0])<<(i*8n));}return val;};let l3_idx=(v>>48n)&0xFFFFn;let l2_table_vaddr=read_u64(l3+(l3_idx<<3n));let l2_idx=(v>>32n)&0xFFFFn;let l1_table_vaddr=read_u64(l2_table_vaddr+(l2_idx<<3n));let l1_idx=(v>>16n)&0xFFFFn;let page_pointer=read_u64(l1_table_vaddr+(l1_idx<<3n));let sec_idx=page_pointer&0xFFFFn;let page_base_low48=page_pointer>>16n;let sec_entry_addr=sd+(sec_idx<<2n);let sec_entry=0;for(let i=0;i<4;i++){sec_entry|=(new Uint8Array($._sys('memory').buffer,$.get_page(sec_entry_addr+BigInt(i)),1)[0]<<(i*8));}let page_base_top16=BigInt(sec_entry>>>16);let phys_page_base=(page_base_top16<<48n)|page_base_low48;return phys_page_base+(v&0xFFFFn);})("@
        + v
        + ","@
        + t
        + ","@
        + sd
        + ")"@
}

/// The translator configuration of a memory.
#[derive(Debug, Clone, Copy, PartialEq, Eq, Structural)]
pub struct Paging {
    pub mode: PagingMode,
    pub page_table: Option<u64>,
    pub security_directory: Option<u64>,
    pub use_32bit: bool,
    pub multilevel: bool,
}

/// The translator configuration held in `m`'s flags.
pub open spec fn paging_of(m: Mem) -> Paging {
    Paging {
        mode: m.paging_mode,
        page_table: m.shared_page_table_vaddr,
        security_directory: m.shared_security_directory_vaddr,
        use_32bit: m.use_32bit_paging,
        multilevel: m.use_multilevel_paging,
    }
}

/// What guest address `v` translates to over memory contents `m` under `p`:
/// itself in legacy mode, else the table walk that the width and depth flags name.
pub open spec fn translate_spec(m: Map<u64, u8>, p: Paging, v: u64) -> Result<u64, MemError> {
    match p.mode {
        PagingMode::Legacy => Ok(v),
        _ => match (p.page_table, p.security_directory) {
            (Some(pt), Some(sd)) => Ok(
                if p.multilevel {
                    if p.use_32bit {
                        multilevel32_spec(m, pt, sd, v)
                    } else {
                        multilevel_spec(m, pt, sd, v)
                    }
                } else {
                    if p.use_32bit {
                        shared32_spec(m, pt, sd, v)
                    } else {
                        shared_spec(m, pt, sd, v)
                    }
                },
            ),
            _ => Err(MemError::TranslationMisconfigured),
        },
    }
}

/// Well-formedness, the contents and the allocated pages of a memory depend
/// on its `pages` alone, not on its translator flags.
pub proof fn lemma_contents_follow_pages(a: Mem, b: Mem)
    requires
        a.pages == b.pages,
    ensures
        a.wf() == b.wf(),
        a@ == b@,
        a.allocated_pages() == b.allocated_pages(),
{
    assert(a@ =~= b@);
}

/// A byte written at an address reads back at that address, and other
/// addresses keep their bytes.
pub proof fn lemma_read_after_write(m: Map<u64, u8>, v: u64, b: u8, w: u64)
    ensures
        m.insert(v, b)[v] == b,
        w != v ==> m.insert(v, b)[w] == m[w],
{
}

} // verus!
