//! Loading an ELF image into guest memory.

use crate::mem::{at, Mem};
use vstd::prelude::*;

verus! {

/// Program header type of a loadable segment.
pub const PT_LOAD: u32 = 1;

/// The fields of a program header that loading reads.
#[derive(Debug, Clone, Copy, PartialEq, Eq, Structural)]
pub struct Segment {
    pub p_type: u32,
    pub p_offset: u64,
    pub p_vaddr: u64,
    pub p_filesz: u64,
    pub p_memsz: u64,
}

/// Why an image could not be loaded.
#[derive(Debug, Clone, Copy, PartialEq, Eq, Structural)]
pub enum LoadError {
    /// The bytes are not an ELF image.
    Parse,
    /// The file bytes of the loadable segment at this index lie beyond the image.
    SegmentOutOfFile { index: usize },
}

/// The entry point and program headers that the elf crate reads from an image.
pub uninterp spec fn elf_headers(data: Seq<u8>) -> Option<(u64, Seq<Segment>)>;

/// Relies on elf's `ElfBytes::minimal_parse` and `segments`: the entry point
/// and the program headers of an image, a function of its bytes alone.
#[verifier::external_body]
fn parse_elf(data: &[u8]) -> (r: Option<(u64, Vec<Segment>)>)
    ensures
        match r {
            Some((e, v)) => elf_headers(data@) == Some((e, v@)),
            None => elf_headers(data@) is None,
        },
{
    let f = elf::ElfBytes::<elf::endian::AnyEndian>::minimal_parse(data).ok()?;
    let segs = match f.segments() {
        Some(t) => t.iter().map(|p| Segment {
            p_type: p.p_type,
            p_offset: p.p_offset,
            p_vaddr: p.p_vaddr,
            p_filesz: p.p_filesz,
            p_memsz: p.p_memsz,
        }).collect(),
        None => Vec::new(),
    };
    Some((f.ehdr.e_entry, segs))
}

/// Whether the file bytes of a loadable segment lie within an image of `len` bytes.
pub open spec fn segment_fits(s: Segment, len: nat) -> bool {
    s.p_type == PT_LOAD ==> s.p_offset + s.p_filesz <= len
}

/// How many bytes a loadable segment writes: its memory size, or its file
/// size when that is larger.
pub open spec fn segment_span(s: Segment) -> nat {
    if s.p_filesz > s.p_memsz {
        s.p_filesz as nat
    } else {
        s.p_memsz as nat
    }
}

/// Byte `i` of a segment's memory image: from the file below its file size,
/// zero above.
pub open spec fn segment_byte(s: Segment, d: Seq<u8>, i: nat) -> u8 {
    if i < s.p_filesz {
        d[s.p_offset + i]
    } else {
        0
    }
}

/// `m` after the first `n` bytes of the segment's image are written.
pub open spec fn write_segment(m: Map<u64, u8>, s: Segment, d: Seq<u8>, n: nat) -> Map<u64, u8>
    decreases n,
{
    if n == 0 {
        m
    } else {
        write_segment(m, s, d, (n - 1) as nat).insert(
            at(s.p_vaddr, n - 1),
            segment_byte(s, d, (n - 1) as nat),
        )
    }
}

/// `m` after the first `n` program headers are applied in order; segments
/// other than loadable ones change nothing.
pub open spec fn load_image(m: Map<u64, u8>, segs: Seq<Segment>, d: Seq<u8>, n: nat) -> Map<
    u64,
    u8,
>
    decreases n,
{
    if n == 0 || n > segs.len() {
        m
    } else {
        let before = load_image(m, segs, d, (n - 1) as nat);
        let s = segs[n - 1];
        if s.p_type == PT_LOAD {
            write_segment(before, s, d, segment_span(s))
        } else {
            before
        }
    }
}

fn write_one_segment(mem: &mut Mem, s: Segment, data: &[u8])
    requires
        old(mem).wf(),
        s.p_type == PT_LOAD,
        segment_fits(s, data@.len()),
        data@.len() <= u64::MAX,
    ensures
        final(mem).wf(),
        final(mem)@ == write_segment(old(mem)@, s, data@, segment_span(s)),
        crate::mem::paging_of(*final(mem)) == crate::mem::paging_of(*old(mem)),
{
    let span = if s.p_filesz > s.p_memsz {
        s.p_filesz
    } else {
        s.p_memsz
    };
    let mut i: u64 = 0;
    while i < span
        invariant
            mem.wf(),
            segment_fits(s, data@.len()),
            data@.len() <= u64::MAX,
            s.p_type == PT_LOAD,
            span == segment_span(s),
            i <= span,
            mem@ == write_segment(old(mem)@, s, data@, i as nat),
            crate::mem::paging_of(*mem) == crate::mem::paging_of(*old(mem)),
        decreases span - i,
    {
        let b: u8 = if i < s.p_filesz {
            assert(s.p_offset + i < data@.len());
            data[(s.p_offset + i) as usize]
        } else {
            0
        };
        proof {
            assert(s.p_vaddr.wrapping_add(i) == at(s.p_vaddr, i as int));
        }
        mem.write_byte(s.p_vaddr.wrapping_add(i), b);
        i = i + 1;
    }
}

/// Loads the loadable segments of an ELF image into `mem`, in header order:
/// each copies its file bytes to its virtual address and zero-fills up to its
/// memory size. Returns the entry point. Nothing is written when the image
/// does not parse or a loadable segment's file bytes lie beyond it.
pub fn load_elf(mem: &mut Mem, data: &[u8]) -> (r: Result<u64, LoadError>)
    requires
        old(mem).wf(),
    ensures
        final(mem).wf(),
        crate::mem::paging_of(*final(mem)) == crate::mem::paging_of(*old(mem)),
        match elf_headers(data@) {
            None => r == Err::<u64, LoadError>(LoadError::Parse) && final(mem)@ == old(mem)@,
            Some((entry, segs)) => if forall|k: int|
                0 <= k < segs.len() ==> segment_fits(#[trigger] segs[k], data@.len()) {
                r == Ok::<u64, LoadError>(entry) && final(mem)@ == load_image(
                    old(mem)@,
                    segs,
                    data@,
                    segs.len(),
                )
            } else {
                final(mem)@ == old(mem)@ && match r {
                    Err(LoadError::SegmentOutOfFile { index }) => index < segs.len()
                        && !segment_fits(segs[index as int], data@.len()),
                    _ => false,
                }
            },
        },
{
    let (entry, segs) = match parse_elf(data) {
        Some(p) => p,
        None => {
            return Err(LoadError::Parse);
        },
    };
    let len: usize = data.len();
    assert(data@.len() == len as nat && len as nat <= u64::MAX);
    let mut k: usize = 0;
    while k < segs.len()
        invariant
            mem.wf(),
            *mem == *old(mem),
            data@.len() <= u64::MAX,
            elf_headers(data@) == Some((entry, segs@)),
            k <= segs@.len(),
            forall|j: int| 0 <= j < k ==> segment_fits(#[trigger] segs@[j], data@.len()),
        decreases segs@.len() - k,
    {
        let s = segs[k];
        if s.p_type == PT_LOAD {
            let fits = match s.p_offset.checked_add(s.p_filesz) {
                Some(end) => end <= data.len() as u64,
                None => false,
            };
            if !fits {
                assert(!segment_fits(segs@[k as int], data@.len()));
                return Err(LoadError::SegmentOutOfFile { index: k });
            }
        }
        k = k + 1;
    }
    let mut k: usize = 0;
    while k < segs.len()
        invariant
            mem.wf(),
            data@.len() <= u64::MAX,
            k <= segs@.len(),
            forall|j: int| 0 <= j < segs@.len() ==> segment_fits(#[trigger] segs@[j], data@.len()),
            mem@ == load_image(old(mem)@, segs@, data@, k as nat),
            crate::mem::paging_of(*mem) == crate::mem::paging_of(*old(mem)),
        decreases segs@.len() - k,
    {
        let s = segs[k];
        if s.p_type == PT_LOAD {
            write_one_segment(mem, s, data);
        }
        k = k + 1;
    }
    Ok(entry)
}

} // verus!
