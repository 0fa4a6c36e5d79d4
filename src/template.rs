//! Script templates for the host: configuration flags, the prologue that
//! binds helper names, and the memory-view helper for each paging setup.

use crate::flate::Flate;
use crate::mem::PagingMode;
use crate::text::{decimal, push_decimal};
use vstd::prelude::*;

verus! {

/// Options that shape emitted code.
#[derive(Clone, Copy, Debug, PartialEq, Eq, Structural)]
#[non_exhaustive]
pub struct Flags {
    /// Log test-case markers.
    pub test_mode: bool,
    /// Translator; `None` behaves as legacy.
    pub paging_mode: Option<PagingMode>,
    pub shared_page_table_vaddr: Option<u64>,
    pub shared_security_directory_vaddr: Option<u64>,
    pub use_32bit_paging: bool,
    pub use_multilevel_paging: bool,
}

impl Default for Flags {
    fn default() -> (r: Self)
        ensures
            r == Flags::new_with_test_mode(false),
    {
        Flags::new_with_test_mode(false)
    }
}

impl Flags {
    /// Flags with the given test mode and every other option off.
    pub open spec fn spec_new_with_test_mode(test_mode: bool) -> Flags {
        Flags {
            test_mode,
            paging_mode: None,
            shared_page_table_vaddr: None,
            shared_security_directory_vaddr: None,
            use_32bit_paging: false,
            use_multilevel_paging: false,
        }
    }

    /// Flags with the given test mode and every other option off.
    #[verifier::when_used_as_spec(spec_new_with_test_mode)]
    pub fn new_with_test_mode(test_mode: bool) -> (r: Self)
        ensures
            r == Flags::spec_new_with_test_mode(test_mode),
    {
        Flags {
            test_mode,
            paging_mode: None,
            shared_page_table_vaddr: None,
            shared_security_directory_vaddr: None,
            use_32bit_paging: false,
            use_multilevel_paging: false,
        }
    }

    /// Flags with a paging configuration.
    pub open spec fn with_paging_spec(
        test_mode: bool,
        paging_mode: PagingMode,
        shared_page_table_vaddr: Option<u64>,
        shared_security_directory_vaddr: Option<u64>,
        use_32bit_paging: bool,
        use_multilevel_paging: bool,
    ) -> Flags {
        Flags {
            test_mode,
            paging_mode: Some(paging_mode),
            shared_page_table_vaddr,
            shared_security_directory_vaddr,
            use_32bit_paging,
            use_multilevel_paging,
        }
    }

    /// Flags with a paging configuration.
    pub fn with_paging(
        test_mode: bool,
        paging_mode: PagingMode,
        shared_page_table_vaddr: Option<u64>,
        shared_security_directory_vaddr: Option<u64>,
        use_32bit_paging: bool,
        use_multilevel_paging: bool,
    ) -> (r: Self)
        ensures
            r == Flags::with_paging_spec(
                test_mode,
                paging_mode,
                shared_page_table_vaddr,
                shared_security_directory_vaddr,
                use_32bit_paging,
                use_multilevel_paging,
            ),
    {
        Flags {
            test_mode,
            paging_mode: Some(paging_mode),
            shared_page_table_vaddr,
            shared_security_directory_vaddr,
            use_32bit_paging,
            use_multilevel_paging,
        }
    }
}

/// Script binding `d` to the memory-view helper for three levels of 32-bit table entries.
pub open spec fn multilevel32_data_js(d: Seq<char>, pt: u64, sd: u64) -> Seq<char> {
    d
        + "=(v=>{let read_u32=(addr)=>{let val=0;for(let i=0;i<4;i++){val|=(new Uint8Array($._sys('memory').buffer,$.get_page(addr+BigInt(i)),1)[0]<<(i*8));}return val>>>0;};let read_u64=(addr)=>{let val=0n;for(let i=0n;i<8n;i++){val|=(BigInt(new Uint8Array($._sys('memory').buffer,$.get_page(addr+i),1)[0])<<(i*8n));}return val;};let l3_idx=(v>>48n)&0xFFFFn;let l2_table_vaddr=BigInt(read_u32("@
        + decimal(pt as nat)
        + "n+(l3_idx<<2n)));let l2_idx=(v>>32n)&0xFFFFn;let l1_table_vaddr=BigInt(read_u32(l2_table_vaddr+(l2_idx<<2n)));let l1_idx=(v>>16n)&0xFFFFn;let page_pointer=read_u32(l1_table_vaddr+(l1_idx<<2n));let sec_idx=page_pointer&0xFF;let page_base_low24=page_pointer>>>8;let sec_entry_addr="@
        + decimal(sd as nat)
        + "n+BigInt(sec_idx<<2);let sec_entry=read_u32(sec_entry_addr);let page_base_top8=BigInt(sec_entry>>>24);let phys_page_base=(page_base_top8<<24n)|BigInt(page_base_low24);let p=phys_page_base+(v&0xFFFFn);return new DataView($._sys(`memory`).buffer,$.get_page(p));})"@
}

fn multilevel32_data_fn(d: &str, pt: u64, sd: u64) -> (r: String)
    ensures
        r@ == multilevel32_data_js(d@, pt, sd),
{
    let mut s = String::new();
    s.append(d);
    s.append("=(v=>{let read_u32=(addr)=>{let val=0;for(let i=0;i<4;i++){val|=(new Uint8Array($._sys('memory').buffer,$.get_page(addr+BigInt(i)),1)[0]<<(i*8));}return val>>>0;};let read_u64=(addr)=>{let val=0n;for(let i=0n;i<8n;i++){val|=(BigInt(new Uint8Array($._sys('memory').buffer,$.get_page(addr+i),1)[0])<<(i*8n));}return val;};let l3_idx=(v>>48n)&0xFFFFn;let l2_table_vaddr=BigInt(read_u32(");
    push_decimal(&mut s, pt);
    s.append("n+(l3_idx<<2n)));let l2_idx=(v>>32n)&0xFFFFn;let l1_table_vaddr=BigInt(read_u32(l2_table_vaddr+(l2_idx<<2n)));let l1_idx=(v>>16n)&0xFFFFn;let page_pointer=read_u32(l1_table_vaddr+(l1_idx<<2n));let sec_idx=page_pointer&0xFF;let page_base_low24=page_pointer>>>8;let sec_entry_addr=");
    push_decimal(&mut s, sd);
    s.append("n+BigInt(sec_idx<<2);let sec_entry=read_u32(sec_entry_addr);let page_base_top8=BigInt(sec_entry>>>24);let phys_page_base=(page_base_top8<<24n)|BigInt(page_base_low24);let p=phys_page_base+(v&0xFFFFn);return new DataView($._sys(`memory`).buffer,$.get_page(p));})");
    proof {
        assert(s@ =~= multilevel32_data_js(d@, pt, sd));
    }
    s
}

/// Script binding `d` to the memory-view helper for three levels of 64-bit table entries.
pub open spec fn multilevel_data_js(d: Seq<char>, pt: u64, sd: u64) -> Seq<char> {
    d
        + "=(v=>{let read_u64=(addr)=>{let val=0n;for(let i=0n;i<8n;i++){val|=(BigInt(new Uint8Array($._sys('memory').buffer,$.get_page(addr+i),1)[0])<<(i*8n));}return val;};let read_u32=(addr)=>{let val=0;for(let i=0;i<4;i++){val|=(new Uint8Array($._sys('memory').buffer,$.get_page(addr+BigInt(i)),1)[0]<<(i*8));}return val>>>0;};let l3_idx=(v>>48n)&0xFFFFn;let l2_table_vaddr=read_u64("@
        + decimal(pt as nat)
        + "n+(l3_idx<<3n));let l2_idx=(v>>32n)&0xFFFFn;let l1_table_vaddr=read_u64(l2_table_vaddr+(l2_idx<<3n));let l1_idx=(v>>16n)&0xFFFFn;let page_pointer=read_u64(l1_table_vaddr+(l1_idx<<3n));let sec_idx=page_pointer&0xFFFFn;let page_base_low48=page_pointer>>16n;let sec_entry_addr="@
        + decimal(sd as nat)
        + "n+(sec_idx<<2n);let sec_entry=BigInt(read_u32(sec_entry_addr));let page_base_top16=(sec_entry>>16n)&0xFFFFn;let phys_page_base=(page_base_top16<<48n)|page_base_low48;let p=phys_page_base+(v&0xFFFFn);return new DataView($._sys(`memory`).buffer,$.get_page(p));})"@
}

fn multilevel_data_fn(d: &str, pt: u64, sd: u64) -> (r: String)
    ensures
        r@ == multilevel_data_js(d@, pt, sd),
{
    let mut s = String::new();
    s.append(d);
    s.append("=(v=>{let read_u64=(addr)=>{let val=0n;for(let i=0n;i<8n;i++){val|=(BigInt(new Uint8Array($._sys('memory').buffer,$.get_page(addr+i),1)[0])<<(i*8n));}return val;};let read_u32=(addr)=>{let val=0;for(let i=0;i<4;i++){val|=(new Uint8Array($._sys('memory').buffer,$.get_page(addr+BigInt(i)),1)[0]<<(i*8));}return val>>>0;};let l3_idx=(v>>48n)&0xFFFFn;let l2_table_vaddr=read_u64(");
    push_decimal(&mut s, pt);
    s.append("n+(l3_idx<<3n));let l2_idx=(v>>32n)&0xFFFFn;let l1_table_vaddr=read_u64(l2_table_vaddr+(l2_idx<<3n));let l1_idx=(v>>16n)&0xFFFFn;let page_pointer=read_u64(l1_table_vaddr+(l1_idx<<3n));let sec_idx=page_pointer&0xFFFFn;let page_base_low48=page_pointer>>16n;let sec_entry_addr=");
    push_decimal(&mut s, sd);
    s.append("n+(sec_idx<<2n);let sec_entry=BigInt(read_u32(sec_entry_addr));let page_base_top16=(sec_entry>>16n)&0xFFFFn;let phys_page_base=(page_base_top16<<48n)|page_base_low48;let p=phys_page_base+(v&0xFFFFn);return new DataView($._sys(`memory`).buffer,$.get_page(p));})");
    proof {
        assert(s@ =~= multilevel_data_js(d@, pt, sd));
    }
    s
}

/// Script binding `d` to the memory-view helper for one level of 32-bit table entries.
pub open spec fn shared32_data_js(d: Seq<char>, pt: u64, sd: u64) -> Seq<char> {
    d
        + "=(v=>{let read_u32=(addr)=>{let val=0;for(let i=0;i<4;i++){val|=(new Uint8Array($._sys('memory').buffer,$.get_page(addr+BigInt(i)),1)[0]<<(i*8));}return val>>>0;};let page_num=v>>16n;let entry_addr="@
        + decimal(pt as nat)
        + "n+(page_num<<2n);let page_pointer=0;for(let i=0;i<4;i++){page_pointer|=(new Uint8Array($._sys('memory').buffer,$.get_page(entry_addr+BigInt(i)),1)[0]<<(i*8));}let sec_idx=page_pointer&0xFF;let page_base_low24=page_pointer>>>8;let sec_entry_addr="@
        + decimal(sd as nat)
        + "n+BigInt(sec_idx<<2);let sec_entry=read_u32(sec_entry_addr);let page_base_top8=BigInt(sec_entry>>>24);let phys_page_base=(page_base_top8<<24n)|BigInt(page_base_low24);let p=phys_page_base+(v&0xFFFFn);return new DataView($._sys(`memory`).buffer,$.get_page(p));})"@
}

fn shared32_data_fn(d: &str, pt: u64, sd: u64) -> (r: String)
    ensures
        r@ == shared32_data_js(d@, pt, sd),
{
    let mut s = String::new();
    s.append(d);
    s.append("=(v=>{let read_u32=(addr)=>{let val=0;for(let i=0;i<4;i++){val|=(new Uint8Array($._sys('memory').buffer,$.get_page(addr+BigInt(i)),1)[0]<<(i*8));}return val>>>0;};let page_num=v>>16n;let entry_addr=");
    push_decimal(&mut s, pt);
    s.append("n+(page_num<<2n);let page_pointer=0;for(let i=0;i<4;i++){page_pointer|=(new Uint8Array($._sys('memory').buffer,$.get_page(entry_addr+BigInt(i)),1)[0]<<(i*8));}let sec_idx=page_pointer&0xFF;let page_base_low24=page_pointer>>>8;let sec_entry_addr=");
    push_decimal(&mut s, sd);
    s.append("n+BigInt(sec_idx<<2);let sec_entry=read_u32(sec_entry_addr);let page_base_top8=BigInt(sec_entry>>>24);let phys_page_base=(page_base_top8<<24n)|BigInt(page_base_low24);let p=phys_page_base+(v&0xFFFFn);return new DataView($._sys(`memory`).buffer,$.get_page(p));})");
    proof {
        assert(s@ =~= shared32_data_js(d@, pt, sd));
    }
    s
}

/// Script binding `d` to the memory-view helper for one level of 64-bit table entries.
pub open spec fn shared_data_js(d: Seq<char>, pt: u64, sd: u64) -> Seq<char> {
    d
        + "=(v=>{let read_u64=(addr)=>{let val=0n;for(let i=0n;i<8n;i++){val|=(BigInt(new Uint8Array($._sys('memory').buffer,$.get_page(addr+i),1)[0])<<(i*8n));}return val;};let page_num=v>>16n;let entry_addr="@
        + decimal(pt as nat)
        + "n+(page_num<<3n);let page_pointer=read_u64(entry_addr);let sec_idx=page_pointer&0xFFFFn;let page_base_low48=page_pointer>>16n;let sec_entry_addr="@
        + decimal(sd as nat)
        + "n+(sec_idx<<3n);let sec_entry=read_u64(sec_entry_addr);let page_base_top16=sec_entry>>48n;let phys_page_base=(page_base_top16<<48n)|page_base_low48;let p=phys_page_base+(v&0xFFFFn);return new DataView($._sys(`memory`).buffer,$.get_page(p));})"@
}

fn shared_data_fn(d: &str, pt: u64, sd: u64) -> (r: String)
    ensures
        r@ == shared_data_js(d@, pt, sd),
{
    let mut s = String::new();
    s.append(d);
    s.append("=(v=>{let read_u64=(addr)=>{let val=0n;for(let i=0n;i<8n;i++){val|=(BigInt(new Uint8Array($._sys('memory').buffer,$.get_page(addr+i),1)[0])<<(i*8n));}return val;};let page_num=v>>16n;let entry_addr=");
    push_decimal(&mut s, pt);
    s.append("n+(page_num<<3n);let page_pointer=read_u64(entry_addr);let sec_idx=page_pointer&0xFFFFn;let page_base_low48=page_pointer>>16n;let sec_entry_addr=");
    push_decimal(&mut s, sd);
    s.append("n+(sec_idx<<3n);let sec_entry=read_u64(sec_entry_addr);let page_base_top16=sec_entry>>48n;let phys_page_base=(page_base_top16<<48n)|page_base_low48;let p=phys_page_base+(v&0xFFFFn);return new DataView($._sys(`memory`).buffer,$.get_page(p));})");
    proof {
        assert(s@ =~= shared_data_js(d@, pt, sd));
    }
    s
}

/// Script binding `d` to the memory-view helper for identity translation.
pub open spec fn legacy_data_js(d: Seq<char>) -> Seq<char> {
    d
        + "=(p=>{p=$.get_page(p);return new DataView($._sys(`memory`).buffer,p);})"@
}

fn legacy_data_fn(d: &str) -> (r: String)
    ensures
        r@ == legacy_data_js(d@),
{
    let mut s = String::new();
    s.append(d);
    s.append("=(p=>{p=$.get_page(p);return new DataView($._sys(`memory`).buffer,p);})");
    proof {
        assert(s@ =~= legacy_data_js(d@));
    }
    s
}

/// A memory-view helper bound to `d` that fails every access: the shared
/// translator was selected while a table base is unset.
pub open spec fn misconfigured_data_js(d: Seq<char>) -> Seq<char> {
    d + "=(v=>{throw new TypeError(`TranslationMisconfigured`);})"@
}

fn misconfigured_data_fn(d: &str) -> (r: String)
    ensures
        r@ == misconfigured_data_js(d@),
{
    let mut s = String::new();
    s.append(d);
    s.append("=(v=>{throw new TypeError(`TranslationMisconfigured`);})");
    proof {
        assert(s@ =~= misconfigured_data_js(d@));
    }
    s
}

/// The memory-view helper bound to `d` under `flags`: in shared and nested
/// modes, the table walk from the configured bases, or a helper that throws
/// when either base is unset; identity otherwise.
pub open spec fn data_function_js(flags: Flags, d: Seq<char>) -> Seq<char> {
    match flags.paging_mode {
        Some(PagingMode::Shared) | Some(PagingMode::Both) => match (
            flags.shared_page_table_vaddr,
            flags.shared_security_directory_vaddr,
        ) {
            (Some(pt), Some(sd)) => if flags.use_multilevel_paging {
                if flags.use_32bit_paging {
                    multilevel32_data_js(d, pt, sd)
                } else {
                    multilevel_data_js(d, pt, sd)
                }
            } else {
                if flags.use_32bit_paging {
                    shared32_data_js(d, pt, sd)
                } else {
                    shared_data_js(d, pt, sd)
                }
            },
            _ => misconfigured_data_js(d),
        },
        _ => legacy_data_js(d),
    }
}

/// The whole host script: a prologue binding the helpers under their
/// renamed identifiers, then `content`, wrapped in an async function.
pub open spec fn core_js(
    max64: Seq<char>,
    max32: Seq<char>,
    signed: Seq<char>,
    unsigned: Seq<char>,
    data_fn: Seq<char>,
    content: Seq<char>,
) -> Seq<char> {
    "return async function(){let "@ + max64 + "=$.f,"@ + max32 + "=0xffff_ffffn,"@ + signed
        + "=(a=>BigInt.asIntN(64,a)),"@ + unsigned + "=(a=>BigInt.asUintN(64,a)),"@ + data_fn
        + ";"@ + content + "}"@
}

/// The prologue and body of one compiled unit of host script.
pub struct CoreJS<'a, F: Flate> {
    /// The body.
    pub content: &'a str,
    /// Renames the helper names.
    pub flate: &'a F,
    pub flags: Flags,
}

impl<'a, F: Flate> CoreJS<'a, F> {
    /// The memory-view helper bound to `data_var`.
    pub fn write_data_function(&self, data_var: &str) -> (r: String)
        ensures
            r@ == data_function_js(self.flags, data_var@),
    {
        match self.flags.paging_mode {
            Some(PagingMode::Shared) | Some(PagingMode::Both) => {
                let (pt, sd) = match (
                    self.flags.shared_page_table_vaddr,
                    self.flags.shared_security_directory_vaddr,
                ) {
                    (Some(pt), Some(sd)) => (pt, sd),
                    _ => {
                        return misconfigured_data_fn(data_var);
                    },
                };
                if self.flags.use_multilevel_paging {
                    if self.flags.use_32bit_paging {
                        multilevel32_data_fn(data_var, pt, sd)
                    } else {
                        multilevel_data_fn(data_var, pt, sd)
                    }
                } else {
                    if self.flags.use_32bit_paging {
                        shared32_data_fn(data_var, pt, sd)
                    } else {
                        shared_data_fn(data_var, pt, sd)
                    }
                }
            },
            _ => legacy_data_fn(data_var),
        }
    }

    /// The whole script text.
    pub fn render(&self) -> (r: String)
        ensures
            r@ == core_js(
                self.flate.flate_spec("max64"@),
                self.flate.flate_spec("max32"@),
                self.flate.flate_spec("signed"@),
                self.flate.flate_spec("unsigned"@),
                data_function_js(self.flags, self.flate.flate_spec("data"@)),
                self.content@,
            ),
    {
        let max64 = self.flate.flate("max64");
        let max32 = self.flate.flate("max32");
        let signed = self.flate.flate("signed");
        let unsigned = self.flate.flate("unsigned");
        let data = self.flate.flate("data");
        let data_fn = self.write_data_function(data.as_str());
        let mut s = String::new();
        s.append("return async function(){let ");
        s.append(max64.as_str());
        s.append("=$.f,");
        s.append(max32.as_str());
        s.append("=0xffff_ffffn,");
        s.append(signed.as_str());
        s.append("=(a=>BigInt.asIntN(64,a)),");
        s.append(unsigned.as_str());
        s.append("=(a=>BigInt.asUintN(64,a)),");
        s.append(data_fn.as_str());
        s.append(";");
        s.append(self.content);
        s.append("}");
        proof {
            assert(s@ =~= core_js(max64@, max32@, signed@, unsigned@, data_fn@, self.content@));
        }
        s
    }
}

} // verus!
