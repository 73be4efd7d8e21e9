//! The state of an x86-64 processor as the hypervisor exchanges it: plain
//! values, and the bytes that stand for them.

use crate::util::bytes::{
    le_u16, le_u32, le_u64, put_u16, put_u32, put_u64, put_u8, read_u16, read_u32, read_u64,
    read_u8,
};
use vstd::bytes::{
    spec_u16_to_le_bytes, spec_u32_to_le_bytes, spec_u64_to_le_bytes, u64_to_le_bytes,
};
use vstd::prelude::*;
use vstd::slice::slice_subrange;

verus! {

/// The general registers, the instruction pointer and the flags.
#[derive(Debug, Clone, Copy, PartialEq, Eq, Structural)]
pub struct Registers {
    pub rax: u64,
    pub rbx: u64,
    pub rcx: u64,
    pub rdx: u64,
    pub rsi: u64,
    pub rdi: u64,
    pub rsp: u64,
    pub rbp: u64,
    pub r8: u64,
    pub r9: u64,
    pub r10: u64,
    pub r11: u64,
    pub r12: u64,
    pub r13: u64,
    pub r14: u64,
    pub r15: u64,
    pub rip: u64,
    pub rflags: u64,
}

impl Default for Registers {
    /// Every register zero.
    fn default() -> (r: Self)
        ensures
            r == Registers::zero(),
    {
        Registers {
            rax: 0,
            rbx: 0,
            rcx: 0,
            rdx: 0,
            rsi: 0,
            rdi: 0,
            rsp: 0,
            rbp: 0,
            r8: 0,
            r9: 0,
            r10: 0,
            r11: 0,
            r12: 0,
            r13: 0,
            r14: 0,
            r15: 0,
            rip: 0,
            rflags: 0,
        }
    }
}

impl Registers {
    /// The number of bytes that stand for the registers.
    pub const SIZE: usize = 144;

    /// Every register zero.
    pub open spec fn zero() -> Registers {
        Registers {
            rax: 0,
            rbx: 0,
            rcx: 0,
            rdx: 0,
            rsi: 0,
            rdi: 0,
            rsp: 0,
            rbp: 0,
            r8: 0,
            r9: 0,
            r10: 0,
            r11: 0,
            r12: 0,
            r13: 0,
            r14: 0,
            r15: 0,
            rip: 0,
            rflags: 0,
        }
    }

    /// The bytes that stand for the registers: each as 8 bytes, lowest first,
    /// in the order of the fields.
    pub open spec fn spec_encode(&self) -> Seq<u8> {
        spec_u64_to_le_bytes(self.rax)
            + spec_u64_to_le_bytes(self.rbx)
            + spec_u64_to_le_bytes(self.rcx)
            + spec_u64_to_le_bytes(self.rdx)
            + spec_u64_to_le_bytes(self.rsi)
            + spec_u64_to_le_bytes(self.rdi)
            + spec_u64_to_le_bytes(self.rsp)
            + spec_u64_to_le_bytes(self.rbp)
            + spec_u64_to_le_bytes(self.r8)
            + spec_u64_to_le_bytes(self.r9)
            + spec_u64_to_le_bytes(self.r10)
            + spec_u64_to_le_bytes(self.r11)
            + spec_u64_to_le_bytes(self.r12)
            + spec_u64_to_le_bytes(self.r13)
            + spec_u64_to_le_bytes(self.r14)
            + spec_u64_to_le_bytes(self.r15)
            + spec_u64_to_le_bytes(self.rip)
            + spec_u64_to_le_bytes(self.rflags)
    }

    /// The registers that 144 bytes stand for; other lengths stand for none.
    pub open spec fn spec_decode(bytes: Seq<u8>) -> Option<Registers> {
        if bytes.len() != 144 {
            None
        } else {
            Some(
                Registers {
                    rax: le_u64(bytes, 0),
                    rbx: le_u64(bytes, 8),
                    rcx: le_u64(bytes, 16),
                    rdx: le_u64(bytes, 24),
                    rsi: le_u64(bytes, 32),
                    rdi: le_u64(bytes, 40),
                    rsp: le_u64(bytes, 48),
                    rbp: le_u64(bytes, 56),
                    r8: le_u64(bytes, 64),
                    r9: le_u64(bytes, 72),
                    r10: le_u64(bytes, 80),
                    r11: le_u64(bytes, 88),
                    r12: le_u64(bytes, 96),
                    r13: le_u64(bytes, 104),
                    r14: le_u64(bytes, 112),
                    r15: le_u64(bytes, 120),
                    rip: le_u64(bytes, 128),
                    rflags: le_u64(bytes, 136),
                },
            )
        }
    }

    /// Writes the registers as the hypervisor reads them.
    pub fn encode(&self) -> (r: Vec<u8>)
        ensures
            r@ == self.spec_encode(),
            r@.len() == 144,
    {
        let mut out = u64_to_le_bytes(self.rax);
        put_u64(&mut out, self.rbx);
        put_u64(&mut out, self.rcx);
        put_u64(&mut out, self.rdx);
        put_u64(&mut out, self.rsi);
        put_u64(&mut out, self.rdi);
        put_u64(&mut out, self.rsp);
        put_u64(&mut out, self.rbp);
        put_u64(&mut out, self.r8);
        put_u64(&mut out, self.r9);
        put_u64(&mut out, self.r10);
        put_u64(&mut out, self.r11);
        put_u64(&mut out, self.r12);
        put_u64(&mut out, self.r13);
        put_u64(&mut out, self.r14);
        put_u64(&mut out, self.r15);
        put_u64(&mut out, self.rip);
        put_u64(&mut out, self.rflags);
        out
    }

    /// Reads the registers as the hypervisor writes them.
    pub fn decode(bytes: &[u8]) -> (r: Option<Registers>)
        ensures
            r == Self::spec_decode(bytes@),
    {
        if bytes.len() != Self::SIZE {
            return None;
        }
        Some(
            Registers {
                rax: read_u64(bytes, 0),
                rbx: read_u64(bytes, 8),
                rcx: read_u64(bytes, 16),
                rdx: read_u64(bytes, 24),
                rsi: read_u64(bytes, 32),
                rdi: read_u64(bytes, 40),
                rsp: read_u64(bytes, 48),
                rbp: read_u64(bytes, 56),
                r8: read_u64(bytes, 64),
                r9: read_u64(bytes, 72),
                r10: read_u64(bytes, 80),
                r11: read_u64(bytes, 88),
                r12: read_u64(bytes, 96),
                r13: read_u64(bytes, 104),
                r14: read_u64(bytes, 112),
                r15: read_u64(bytes, 120),
                rip: read_u64(bytes, 128),
                rflags: read_u64(bytes, 136),
            },
        )
    }

    /// Registers that were written are read back unchanged, every one.
    pub proof fn lemma_round_trip(self)
        ensures
            self.spec_encode().len() == 144,
            Self::spec_decode(self.spec_encode()) == Some(self),
    {
        vstd::bytes::lemma_auto_spec_u64_to_from_le_bytes();
        let bytes = self.spec_encode();
        assert(bytes.subrange(0, 8) =~= spec_u64_to_le_bytes(self.rax));
        assert(bytes.subrange(8, 16) =~= spec_u64_to_le_bytes(self.rbx));
        assert(bytes.subrange(16, 24) =~= spec_u64_to_le_bytes(self.rcx));
        assert(bytes.subrange(24, 32) =~= spec_u64_to_le_bytes(self.rdx));
        assert(bytes.subrange(32, 40) =~= spec_u64_to_le_bytes(self.rsi));
        assert(bytes.subrange(40, 48) =~= spec_u64_to_le_bytes(self.rdi));
        assert(bytes.subrange(48, 56) =~= spec_u64_to_le_bytes(self.rsp));
        assert(bytes.subrange(56, 64) =~= spec_u64_to_le_bytes(self.rbp));
        assert(bytes.subrange(64, 72) =~= spec_u64_to_le_bytes(self.r8));
        assert(bytes.subrange(72, 80) =~= spec_u64_to_le_bytes(self.r9));
        assert(bytes.subrange(80, 88) =~= spec_u64_to_le_bytes(self.r10));
        assert(bytes.subrange(88, 96) =~= spec_u64_to_le_bytes(self.r11));
        assert(bytes.subrange(96, 104) =~= spec_u64_to_le_bytes(self.r12));
        assert(bytes.subrange(104, 112) =~= spec_u64_to_le_bytes(self.r13));
        assert(bytes.subrange(112, 120) =~= spec_u64_to_le_bytes(self.r14));
        assert(bytes.subrange(120, 128) =~= spec_u64_to_le_bytes(self.r15));
        assert(bytes.subrange(128, 136) =~= spec_u64_to_le_bytes(self.rip));
        assert(bytes.subrange(136, 144) =~= spec_u64_to_le_bytes(self.rflags));
    }
}

/// One segment register.
#[derive(Debug, Clone, Copy, PartialEq, Eq, Structural)]
pub struct Segment {
    pub base: u64,
    pub limit: u32,
    pub selector: u16,
    pub kind: u8,
    pub present: u8,
    pub dpl: u8,
    pub db: u8,
    pub s: u8,
    pub l: u8,
    pub g: u8,
    pub avl: u8,
    pub unusable: u8,
    pub padding: u8,
}

impl Default for Segment {
    /// Every field zero.
    fn default() -> (r: Self)
        ensures
            r == Segment::zero(),
    {
        Segment {
            base: 0,
            limit: 0,
            selector: 0,
            kind: 0,
            present: 0,
            dpl: 0,
            db: 0,
            s: 0,
            l: 0,
            g: 0,
            avl: 0,
            unusable: 0,
            padding: 0,
        }
    }
}

impl Segment {
    /// The number of bytes that stand for a segment register.
    pub const SIZE: usize = 24;

    /// Every field zero.
    pub open spec fn zero() -> Segment {
        Segment {
            base: 0,
            limit: 0,
            selector: 0,
            kind: 0,
            present: 0,
            dpl: 0,
            db: 0,
            s: 0,
            l: 0,
            g: 0,
            avl: 0,
            unusable: 0,
            padding: 0,
        }
    }

    /// The bytes that stand for the register: base, limit and selector lowest
    /// byte first, then one byte for each of the other fields.
    pub open spec fn spec_encode(&self) -> Seq<u8> {
        spec_u64_to_le_bytes(self.base) + spec_u32_to_le_bytes(self.limit) + spec_u16_to_le_bytes(
            self.selector,
        ) + seq![
            self.kind,
            self.present,
            self.dpl,
            self.db,
            self.s,
            self.l,
            self.g,
            self.avl,
            self.unusable,
            self.padding,
        ]
    }

    /// The register that 24 bytes stand for.
    pub open spec fn spec_decode(bytes: Seq<u8>) -> Segment {
        Segment {
            base: le_u64(bytes, 0),
            limit: le_u32(bytes, 8),
            selector: le_u16(bytes, 12),
            kind: bytes[14],
            present: bytes[15],
            dpl: bytes[16],
            db: bytes[17],
            s: bytes[18],
            l: bytes[19],
            g: bytes[20],
            avl: bytes[21],
            unusable: bytes[22],
            padding: bytes[23],
        }
    }

    /// Writes the register as the hypervisor reads it.
    pub fn encode(&self) -> (r: Vec<u8>)
        ensures
            r@ == self.spec_encode(),
            r@.len() == 24,
    {
        let mut out = u64_to_le_bytes(self.base);
        put_u32(&mut out, self.limit);
        put_u16(&mut out, self.selector);
        put_u8(&mut out, self.kind);
        put_u8(&mut out, self.present);
        put_u8(&mut out, self.dpl);
        put_u8(&mut out, self.db);
        put_u8(&mut out, self.s);
        put_u8(&mut out, self.l);
        put_u8(&mut out, self.g);
        put_u8(&mut out, self.avl);
        put_u8(&mut out, self.unusable);
        put_u8(&mut out, self.padding);
        assert(out@ =~= self.spec_encode());
        out
    }

    /// Reads the register as the hypervisor writes it.
    pub fn decode(bytes: &[u8]) -> (r: Segment)
        requires
            bytes@.len() == 24,
        ensures
            r == Self::spec_decode(bytes@),
    {
        Segment {
            base: read_u64(bytes, 0),
            limit: read_u32(bytes, 8),
            selector: read_u16(bytes, 12),
            kind: read_u8(bytes, 14),
            present: read_u8(bytes, 15),
            dpl: read_u8(bytes, 16),
            db: read_u8(bytes, 17),
            s: read_u8(bytes, 18),
            l: read_u8(bytes, 19),
            g: read_u8(bytes, 20),
            avl: read_u8(bytes, 21),
            unusable: read_u8(bytes, 22),
            padding: read_u8(bytes, 23),
        }
    }

    /// A segment register that was written is read back unchanged.
    pub proof fn lemma_round_trip(self)
        ensures
            self.spec_encode().len() == 24,
            Self::spec_decode(self.spec_encode()) == self,
    {
        vstd::bytes::lemma_auto_spec_u64_to_from_le_bytes();
        vstd::bytes::lemma_auto_spec_u32_to_from_le_bytes();
        vstd::bytes::lemma_auto_spec_u16_to_from_le_bytes();
        let bytes = self.spec_encode();
        assert(bytes.subrange(0, 8) =~= spec_u64_to_le_bytes(self.base));
        assert(bytes.subrange(8, 12) =~= spec_u32_to_le_bytes(self.limit));
        assert(bytes.subrange(12, 14) =~= spec_u16_to_le_bytes(self.selector));
    }
}

/// The base and limit of a descriptor table.
#[derive(Debug, Clone, Copy, PartialEq, Eq, Structural)]
pub struct DescriptorTable {
    pub base: u64,
    pub limit: u16,
}

impl Default for DescriptorTable {
    /// Base and limit zero.
    fn default() -> (r: Self)
        ensures
            r == (DescriptorTable { base: 0, limit: 0 }),
    {
        DescriptorTable { base: 0, limit: 0 }
    }
}

impl DescriptorTable {
    /// The number of bytes that stand for a descriptor table.
    pub const SIZE: usize = 16;

    /// The bytes that stand for the table: base and limit lowest byte first,
    /// then six bytes of zero.
    pub open spec fn spec_encode(&self) -> Seq<u8> {
        spec_u64_to_le_bytes(self.base) + spec_u16_to_le_bytes(self.limit) + seq![
            0u8,
            0u8,
            0u8,
            0u8,
            0u8,
            0u8,
        ]
    }

    /// The table that 16 bytes stand for.
    pub open spec fn spec_decode(bytes: Seq<u8>) -> DescriptorTable {
        DescriptorTable { base: le_u64(bytes, 0), limit: le_u16(bytes, 8) }
    }

    /// Writes the table as the hypervisor reads it.
    pub fn encode(&self) -> (r: Vec<u8>)
        ensures
            r@ == self.spec_encode(),
            r@.len() == 16,
    {
        let mut out = u64_to_le_bytes(self.base);
        put_u16(&mut out, self.limit);
        put_u8(&mut out, 0);
        put_u8(&mut out, 0);
        put_u8(&mut out, 0);
        put_u8(&mut out, 0);
        put_u8(&mut out, 0);
        put_u8(&mut out, 0);
        assert(out@ =~= self.spec_encode());
        out
    }

    /// Reads the table as the hypervisor writes it.
    pub fn decode(bytes: &[u8]) -> (r: DescriptorTable)
        requires
            bytes@.len() == 16,
        ensures
            r == Self::spec_decode(bytes@),
    {
        DescriptorTable { base: read_u64(bytes, 0), limit: read_u16(bytes, 8) }
    }

    /// A descriptor table that was written is read back unchanged.
    pub proof fn lemma_round_trip(self)
        ensures
            self.spec_encode().len() == 16,
            Self::spec_decode(self.spec_encode()) == self,
    {
        vstd::bytes::lemma_auto_spec_u64_to_from_le_bytes();
        vstd::bytes::lemma_auto_spec_u16_to_from_le_bytes();
        let bytes = self.spec_encode();
        assert(bytes.subrange(0, 8) =~= spec_u64_to_le_bytes(self.base));
        assert(bytes.subrange(8, 10) =~= spec_u16_to_le_bytes(self.limit));
    }
}

/// The segment registers, descriptor tables, control registers and pending
/// interrupts.
#[derive(Debug, Clone, Copy, PartialEq, Eq)]
pub struct SpecialRegisters {
    pub cs: Segment,
    pub ds: Segment,
    pub es: Segment,
    pub fs: Segment,
    pub gs: Segment,
    pub ss: Segment,
    pub tr: Segment,
    pub ldt: Segment,
    pub gdt: DescriptorTable,
    pub idt: DescriptorTable,
    pub cr0: u64,
    pub cr2: u64,
    pub cr3: u64,
    pub cr4: u64,
    pub cr8: u64,
    pub efer: u64,
    pub apic_base: u64,
    pub interrupt_bitmap: [u64; 4],
}

impl Default for SpecialRegisters {
    /// Every field zero.
    fn default() -> (r: Self)
        ensures
            r.is_zero(),
    {
        let r = SpecialRegisters {
            cs: Segment::default(),
            ds: Segment::default(),
            es: Segment::default(),
            fs: Segment::default(),
            gs: Segment::default(),
            ss: Segment::default(),
            tr: Segment::default(),
            ldt: Segment::default(),
            gdt: DescriptorTable::default(),
            idt: DescriptorTable::default(),
            cr0: 0,
            cr2: 0,
            cr3: 0,
            cr4: 0,
            cr8: 0,
            efer: 0,
            apic_base: 0,
            interrupt_bitmap: [0, 0, 0, 0],
        };
        assert(r.interrupt_bitmap@ =~= seq![0u64, 0u64, 0u64, 0u64]);
        r
    }
}

impl SpecialRegisters {
    /// The number of bytes that stand for the special registers.
    pub const SIZE: usize = 312;

    /// Whether every field is zero.
    pub open spec fn is_zero(&self) -> bool {
        &&& self.cs == Segment::zero()
        &&& self.ds == Segment::zero()
        &&& self.es == Segment::zero()
        &&& self.fs == Segment::zero()
        &&& self.gs == Segment::zero()
        &&& self.ss == Segment::zero()
        &&& self.tr == Segment::zero()
        &&& self.ldt == Segment::zero()
        &&& self.gdt == (DescriptorTable { base: 0, limit: 0 })
        &&& self.idt == (DescriptorTable { base: 0, limit: 0 })
        &&& self.cr0 == 0
        &&& self.cr2 == 0
        &&& self.cr3 == 0
        &&& self.cr4 == 0
        &&& self.cr8 == 0
        &&& self.efer == 0
        &&& self.apic_base == 0
        &&& self.interrupt_bitmap@ == seq![0u64, 0u64, 0u64, 0u64]
    }

    /// The bytes that stand for the special registers: the fields in their
    /// order, each as its own bytes.
    pub open spec fn spec_encode(&self) -> Seq<u8> {
        self.cs.spec_encode()
            + self.ds.spec_encode()
            + self.es.spec_encode()
            + self.fs.spec_encode()
            + self.gs.spec_encode()
            + self.ss.spec_encode()
            + self.tr.spec_encode()
            + self.ldt.spec_encode()
            + self.gdt.spec_encode()
            + self.idt.spec_encode()
            + spec_u64_to_le_bytes(self.cr0)
            + spec_u64_to_le_bytes(self.cr2)
            + spec_u64_to_le_bytes(self.cr3)
            + spec_u64_to_le_bytes(self.cr4)
            + spec_u64_to_le_bytes(self.cr8)
            + spec_u64_to_le_bytes(self.efer)
            + spec_u64_to_le_bytes(self.apic_base)
            + spec_u64_to_le_bytes(self.interrupt_bitmap[0])
            + spec_u64_to_le_bytes(self.interrupt_bitmap[1])
            + spec_u64_to_le_bytes(self.interrupt_bitmap[2])
            + spec_u64_to_le_bytes(self.interrupt_bitmap[3])
    }

    /// Whether these are the special registers that `bytes` stand for.
    pub open spec fn decoded_from(&self, bytes: Seq<u8>) -> bool {
        &&& bytes.len() == 312
        &&& self.cs == Segment::spec_decode(bytes.subrange(0, 24))
        &&& self.ds == Segment::spec_decode(bytes.subrange(24, 48))
        &&& self.es == Segment::spec_decode(bytes.subrange(48, 72))
        &&& self.fs == Segment::spec_decode(bytes.subrange(72, 96))
        &&& self.gs == Segment::spec_decode(bytes.subrange(96, 120))
        &&& self.ss == Segment::spec_decode(bytes.subrange(120, 144))
        &&& self.tr == Segment::spec_decode(bytes.subrange(144, 168))
        &&& self.ldt == Segment::spec_decode(bytes.subrange(168, 192))
        &&& self.gdt == DescriptorTable::spec_decode(bytes.subrange(192, 208))
        &&& self.idt == DescriptorTable::spec_decode(bytes.subrange(208, 224))
        &&& self.cr0 == le_u64(bytes, 224)
        &&& self.cr2 == le_u64(bytes, 232)
        &&& self.cr3 == le_u64(bytes, 240)
        &&& self.cr4 == le_u64(bytes, 248)
        &&& self.cr8 == le_u64(bytes, 256)
        &&& self.efer == le_u64(bytes, 264)
        &&& self.apic_base == le_u64(bytes, 272)
        &&& self.interrupt_bitmap@ == seq![
            le_u64(bytes, 280),
            le_u64(bytes, 288),
            le_u64(bytes, 296),
            le_u64(bytes, 304),
        ]
    }

    /// Writes the special registers as the hypervisor reads them.
    pub fn encode(&self) -> (r: Vec<u8>)
        ensures
            r@ == self.spec_encode(),
            r@.len() == 312,
    {
        let mut out = self.cs.encode();
        let mut part = self.ds.encode();
        out.append(&mut part);
        let mut part = self.es.encode();
        out.append(&mut part);
        let mut part = self.fs.encode();
        out.append(&mut part);
        let mut part = self.gs.encode();
        out.append(&mut part);
        let mut part = self.ss.encode();
        out.append(&mut part);
        let mut part = self.tr.encode();
        out.append(&mut part);
        let mut part = self.ldt.encode();
        out.append(&mut part);
        let mut part = self.gdt.encode();
        out.append(&mut part);
        let mut part = self.idt.encode();
        out.append(&mut part);
        put_u64(&mut out, self.cr0);
        put_u64(&mut out, self.cr2);
        put_u64(&mut out, self.cr3);
        put_u64(&mut out, self.cr4);
        put_u64(&mut out, self.cr8);
        put_u64(&mut out, self.efer);
        put_u64(&mut out, self.apic_base);
        put_u64(&mut out, self.interrupt_bitmap[0]);
        put_u64(&mut out, self.interrupt_bitmap[1]);
        put_u64(&mut out, self.interrupt_bitmap[2]);
        put_u64(&mut out, self.interrupt_bitmap[3]);
        out
    }

    /// Reads the special registers as the hypervisor writes them: 312 bytes
    /// stand for them, other lengths for none.
    pub fn decode(bytes: &[u8]) -> (r: Option<SpecialRegisters>)
        ensures
            bytes@.len() != 312 <==> r is None,
            r is Some ==> r->Some_0.decoded_from(bytes@),
    {
        if bytes.len() != Self::SIZE {
            return None;
        }
        let interrupt_bitmap: [u64; 4] = [
            read_u64(bytes, 280),
            read_u64(bytes, 288),
            read_u64(bytes, 296),
            read_u64(bytes, 304),
        ];
        let r = SpecialRegisters {
            cs: Segment::decode(slice_subrange(bytes, 0, 24)),
            ds: Segment::decode(slice_subrange(bytes, 24, 48)),
            es: Segment::decode(slice_subrange(bytes, 48, 72)),
            fs: Segment::decode(slice_subrange(bytes, 72, 96)),
            gs: Segment::decode(slice_subrange(bytes, 96, 120)),
            ss: Segment::decode(slice_subrange(bytes, 120, 144)),
            tr: Segment::decode(slice_subrange(bytes, 144, 168)),
            ldt: Segment::decode(slice_subrange(bytes, 168, 192)),
            gdt: DescriptorTable::decode(slice_subrange(bytes, 192, 208)),
            idt: DescriptorTable::decode(slice_subrange(bytes, 208, 224)),
            cr0: read_u64(bytes, 224),
            cr2: read_u64(bytes, 232),
            cr3: read_u64(bytes, 240),
            cr4: read_u64(bytes, 248),
            cr8: read_u64(bytes, 256),
            efer: read_u64(bytes, 264),
            apic_base: read_u64(bytes, 272),
            interrupt_bitmap,
        };
        assert(r.interrupt_bitmap@ =~= seq![
            le_u64(bytes@, 280),
            le_u64(bytes@, 288),
            le_u64(bytes@, 296),
            le_u64(bytes@, 304),
        ]);
        Some(r)
    }

    /// Special registers that were written are read back unchanged, every
    /// field: whatever the written bytes stand for equals what was written.
    pub proof fn lemma_round_trip(self, other: SpecialRegisters)
        requires
            other.decoded_from(self.spec_encode()),
        ensures
            other == self,
    {
        vstd::bytes::lemma_auto_spec_u64_to_from_le_bytes();
        let bytes = self.spec_encode();
        self.cs.lemma_round_trip();
        self.ds.lemma_round_trip();
        self.es.lemma_round_trip();
        self.fs.lemma_round_trip();
        self.gs.lemma_round_trip();
        self.ss.lemma_round_trip();
        self.tr.lemma_round_trip();
        self.ldt.lemma_round_trip();
        self.gdt.lemma_round_trip();
        self.idt.lemma_round_trip();
        assert(bytes.subrange(0, 24) =~= self.cs.spec_encode());
        assert(bytes.subrange(24, 48) =~= self.ds.spec_encode());
        assert(bytes.subrange(48, 72) =~= self.es.spec_encode());
        assert(bytes.subrange(72, 96) =~= self.fs.spec_encode());
        assert(bytes.subrange(96, 120) =~= self.gs.spec_encode());
        assert(bytes.subrange(120, 144) =~= self.ss.spec_encode());
        assert(bytes.subrange(144, 168) =~= self.tr.spec_encode());
        assert(bytes.subrange(168, 192) =~= self.ldt.spec_encode());
        assert(bytes.subrange(192, 208) =~= self.gdt.spec_encode());
        assert(bytes.subrange(208, 224) =~= self.idt.spec_encode());
        assert(bytes.subrange(224, 232) =~= spec_u64_to_le_bytes(self.cr0));
        assert(bytes.subrange(232, 240) =~= spec_u64_to_le_bytes(self.cr2));
        assert(bytes.subrange(240, 248) =~= spec_u64_to_le_bytes(self.cr3));
        assert(bytes.subrange(248, 256) =~= spec_u64_to_le_bytes(self.cr4));
        assert(bytes.subrange(256, 264) =~= spec_u64_to_le_bytes(self.cr8));
        assert(bytes.subrange(264, 272) =~= spec_u64_to_le_bytes(self.efer));
        assert(bytes.subrange(272, 280) =~= spec_u64_to_le_bytes(self.apic_base));
        assert(bytes.subrange(280, 288) =~= spec_u64_to_le_bytes(self.interrupt_bitmap[0]));
        assert(bytes.subrange(288, 296) =~= spec_u64_to_le_bytes(self.interrupt_bitmap[1]));
        assert(bytes.subrange(296, 304) =~= spec_u64_to_le_bytes(self.interrupt_bitmap[2]));
        assert(bytes.subrange(304, 312) =~= spec_u64_to_le_bytes(self.interrupt_bitmap[3]));
        assert(other.interrupt_bitmap =~= self.interrupt_bitmap);
    }

    /// The bytes written for special registers stand for special registers.
    pub proof fn lemma_encode_len(self)
        ensures
            self.spec_encode().len() == 312,
    {
        vstd::bytes::lemma_auto_spec_u64_to_from_le_bytes();
        self.cs.lemma_round_trip();
        self.ds.lemma_round_trip();
        self.es.lemma_round_trip();
        self.fs.lemma_round_trip();
        self.gs.lemma_round_trip();
        self.ss.lemma_round_trip();
        self.tr.lemma_round_trip();
        self.ldt.lemma_round_trip();
        self.gdt.lemma_round_trip();
        self.idt.lemma_round_trip();
    }
}

/// The registers that the hypervisor can share through the run page.
#[derive(Debug, Clone, Copy, PartialEq, Eq)]
pub struct SyncRegisters {
    pub regs: Registers,
    pub sregs: SpecialRegisters,
    pub events: CpuEvents,
}

/// The events that are pending on a processor.
#[derive(Debug, Clone, Copy, PartialEq, Eq)]
pub struct CpuEvents {
    pub exception: CpuException,
    pub interrupt: CpuInterrupt,
    pub nmi: CpuNmi,
    pub sipi_vector: u32,
    pub flags: u32,
    pub smi: CpuSmi,
    pub reserved: [u8; 27],
    pub exception_has_payload: u8,
    pub exception_payload: u64,
}

/// A pending exception.
#[derive(Debug, Clone, Copy, PartialEq, Eq, Structural)]
pub struct CpuException {
    pub injected: u8,
    pub nr: u8,
    pub has_error_code: u8,
    pub pending: u8,
    pub error_code: u32,
}

/// A pending interrupt.
#[derive(Debug, Clone, Copy, PartialEq, Eq, Structural)]
pub struct CpuInterrupt {
    pub injected: u8,
    pub nr: u8,
    pub soft: u8,
    pub shadow: u8,
}

/// A pending non-maskable interrupt.
#[derive(Debug, Clone, Copy, PartialEq, Eq, Structural)]
pub struct CpuNmi {
    pub injected: u8,
    pub pending: u8,
    pub masked: u8,
    pub pad: u8,
}

/// The state of system management mode.
#[derive(Debug, Clone, Copy, PartialEq, Eq, Structural)]
pub struct CpuSmi {
    pub smm: u8,
    pub pending: u8,
    pub smm_inside_nmi: u8,
    pub latched_init: u8,
}

/// What the run page says of a debug exit.
#[derive(Debug, Clone, Copy, PartialEq, Eq, Structural)]
pub struct DebugExit {
    pub exception: u32,
    pub pad: u32,
    pub pc: u64,
    pub dr6: u64,
    pub dr7: u64,
}

/// The flags of a run: a set whose one named bit is "in system management
/// mode" (1).
#[derive(Debug, Clone, Copy, PartialEq, Eq, Structural)]
pub struct RunFlags {
    bits: u16,
}

impl RunFlags {
    /// The set as a number.
    pub closed spec fn spec_bits(self) -> u16 {
        self.bits
    }

    /// The set as a number.
    #[verifier::when_used_as_spec(spec_bits)]
    pub fn bits(self) -> (r: u16)
        ensures
            r == self.spec_bits(),
    {
        self.bits
    }

    /// The set that a number stands for, whatever bits it has.
    pub fn from_bits_retain(bits: u16) -> (r: Self)
        ensures
            r.bits() == bits,
    {
        RunFlags { bits }
    }

    /// The processor is in system management mode.
    pub fn smm() -> (r: Self)
        ensures
            r.bits() == 1,
    {
        RunFlags { bits: 1 }
    }

    /// Whether this set has every flag of `other`.
    pub fn contains(self, other: Self) -> (r: bool)
        ensures
            r == (self.bits() & other.bits() == other.bits()),
    {
        self.bits & other.bits == other.bits
    }
}

} // verus!
