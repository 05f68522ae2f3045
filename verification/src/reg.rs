//! General purpose register operands of the four operand widths.
//!
//! Each register knows its 4-bit encoding index, whether it requires a
//! `REX` prefix, and the operand width it selects.  The `rsp`/`r12`
//! lineage collides with the SIB escape encoding and the `rbp`/`r13`
//! lineage with RIP-relative addressing when used as a memory base;
//! those quirks are exposed as spec functions and ruled out by the
//! preconditions of the memory-operand instruction encoders.

use vstd::prelude::*;

verus! {

/// Common interface of the four register families.
///
/// The `s`-prefixed spec functions describe a register for use in
/// contracts; the executable methods return exactly those values.
pub trait Reg: Copy + Sized {
    /// The 4-bit hardware encoding index (0..=15).
    spec fn sidx(self) -> u8;

    /// True if the operand width is 64 bit, i.e. `REX.W` must be set.
    spec fn srexw(self) -> bool;

    /// True if the register alone mandates emission of a `REX` prefix:
    /// 64-bit registers, extended registers (index 8..=15), and the
    /// "new" 8-bit low-byte registers (`spl`, `bpl`, `sil`, `dil`).
    spec fn sneed_rex(self) -> bool;

    /// True for the legacy high-byte registers (`ah`, `ch`, `dh`, `bh`),
    /// which cannot be encoded in an instruction carrying a `REX` prefix.
    spec fn shigh(self) -> bool;

    /// True if the operand width is 16 bit, i.e. the legacy operand-size
    /// prefix `0x66` must be emitted.
    spec fn sw16(self) -> bool;

    /// Encoding indices fit in 4 bits.
    proof fn lemma_idx_bound(self)
        ensures
            self.sidx() < 16,
    ;

    /// The encoding index.
    fn idx(self) -> (r: u8)
        ensures
            r == self.sidx(),
    ;

    /// Whether this is an extended register (index 8..=15), which
    /// needs its high index bit carried in `REX.R`/`REX.X`/`REX.B`.
    fn is_ext(self) -> (r: bool)
        ensures
            r == (self.sidx() >= 8),
    ;

    /// Whether `REX.W` must be set for this operand.
    fn rexw(self) -> (r: bool)
        ensures
            r == self.srexw(),
    ;

    /// Whether the register alone mandates a `REX` prefix.
    fn need_rex(self) -> (r: bool)
        ensures
            r == self.sneed_rex(),
    ;

    /// Whether the legacy operand-size prefix `0x66` is required.
    fn is_w16(self) -> (r: bool)
        ensures
            r == self.sw16(),
    ;
}

/// A 64-bit general purpose register.
#[allow(non_camel_case_types)]
#[derive(Clone, Copy, Debug)]
pub enum Reg64 {
    rax,
    rcx,
    rdx,
    rbx,
    rsp,
    rbp,
    rsi,
    rdi,
    r8,
    r9,
    r10,
    r11,
    r12,
    r13,
    r14,
    r15,
}

/// A 32-bit general purpose register.
#[allow(non_camel_case_types)]
#[derive(Clone, Copy, Debug)]
pub enum Reg32 {
    eax,
    ecx,
    edx,
    ebx,
    esp,
    ebp,
    esi,
    edi,
    r8d,
    r9d,
    r10d,
    r11d,
    r12d,
    r13d,
    r14d,
    r15d,
}

/// A 16-bit general purpose register.
#[allow(non_camel_case_types)]
#[derive(Clone, Copy, Debug)]
pub enum Reg16 {
    ax,
    cx,
    dx,
    bx,
    sp,
    bp,
    si,
    di,
    r8w,
    r9w,
    r10w,
    r11w,
    r12w,
    r13w,
    r14w,
    r15w,
}

/// An 8-bit general purpose register.
///
/// The low-byte registers `spl`, `bpl`, `sil` and `dil` are only
/// addressable with a `REX` prefix present, while the legacy high-byte
/// registers `ah`, `ch`, `dh` and `bh` are only addressable without one;
/// the two groups share encoding indices 4..=7 and are mutually
/// exclusive within a single instruction.
#[allow(non_camel_case_types)]
#[derive(Clone, Copy, Debug)]
pub enum Reg8 {
    al,
    cl,
    dl,
    bl,
    spl,
    bpl,
    sil,
    dil,
    r8l,
    r9l,
    r10l,
    r11l,
    r12l,
    r13l,
    r14l,
    r15l,
    ah,
    ch,
    dh,
    bh,
}

impl Reg for Reg64 {
    open spec fn sidx(self) -> u8 {
        match self {
            Reg64::rax => 0,
            Reg64::rcx => 1,
            Reg64::rdx => 2,
            Reg64::rbx => 3,
            Reg64::rsp => 4,
            Reg64::rbp => 5,
            Reg64::rsi => 6,
            Reg64::rdi => 7,
            Reg64::r8 => 8,
            Reg64::r9 => 9,
            Reg64::r10 => 10,
            Reg64::r11 => 11,
            Reg64::r12 => 12,
            Reg64::r13 => 13,
            Reg64::r14 => 14,
            Reg64::r15 => 15,
        }
    }

    open spec fn srexw(self) -> bool {
        true
    }

    open spec fn sneed_rex(self) -> bool {
        true
    }

    open spec fn shigh(self) -> bool {
        false
    }

    open spec fn sw16(self) -> bool {
        false
    }

    proof fn lemma_idx_bound(self) {
    }

    fn idx(self) -> (r: u8) {
        match self {
            Reg64::rax => 0,
            Reg64::rcx => 1,
            Reg64::rdx => 2,
            Reg64::rbx => 3,
            Reg64::rsp => 4,
            Reg64::rbp => 5,
            Reg64::rsi => 6,
            Reg64::rdi => 7,
            Reg64::r8 => 8,
            Reg64::r9 => 9,
            Reg64::r10 => 10,
            Reg64::r11 => 11,
            Reg64::r12 => 12,
            Reg64::r13 => 13,
            Reg64::r14 => 14,
            Reg64::r15 => 15,
        }
    }

    fn is_ext(self) -> (r: bool) {
        self.idx() >= 8
    }

    fn rexw(self) -> (r: bool) {
        true
    }

    fn need_rex(self) -> (r: bool) {
        true
    }

    fn is_w16(self) -> (r: bool) {
        false
    }
}

impl Reg64 {
    /// True for the `rsp`/`r12` lineage whose index collides with the
    /// SIB escape when used as a memory base.
    pub open spec fn sneed_sib(self) -> bool {
        self.sidx() % 8 == 4
    }

    /// True for the `rbp`/`r13` lineage whose index collides with
    /// RIP-relative `disp32` addressing when used as a memory base
    /// with `mod=00`.
    pub open spec fn sis_pc_rel(self) -> bool {
        self.sidx() % 8 == 5
    }

    /// Whether this register needs a SIB byte as a memory base.
    pub fn need_sib(self) -> (r: bool)
        ensures
            r == self.sneed_sib(),
    {
        matches!(self, Reg64::rsp | Reg64::r12)
    }

    /// Whether this register is PC-relative as a `mod=00` memory base.
    pub fn is_pc_rel(self) -> (r: bool)
        ensures
            r == self.sis_pc_rel(),
    {
        matches!(self, Reg64::rbp | Reg64::r13)
    }
}

impl Reg for Reg32 {
    open spec fn sidx(self) -> u8 {
        match self {
            Reg32::eax => 0,
            Reg32::ecx => 1,
            Reg32::edx => 2,
            Reg32::ebx => 3,
            Reg32::esp => 4,
            Reg32::ebp => 5,
            Reg32::esi => 6,
            Reg32::edi => 7,
            Reg32::r8d => 8,
            Reg32::r9d => 9,
            Reg32::r10d => 10,
            Reg32::r11d => 11,
            Reg32::r12d => 12,
            Reg32::r13d => 13,
            Reg32::r14d => 14,
            Reg32::r15d => 15,
        }
    }

    open spec fn srexw(self) -> bool {
        false
    }

    open spec fn sneed_rex(self) -> bool {
        self.sidx() >= 8
    }

    open spec fn shigh(self) -> bool {
        false
    }

    open spec fn sw16(self) -> bool {
        false
    }

    proof fn lemma_idx_bound(self) {
    }

    fn idx(self) -> (r: u8) {
        match self {
            Reg32::eax => 0,
            Reg32::ecx => 1,
            Reg32::edx => 2,
            Reg32::ebx => 3,
            Reg32::esp => 4,
            Reg32::ebp => 5,
            Reg32::esi => 6,
            Reg32::edi => 7,
            Reg32::r8d => 8,
            Reg32::r9d => 9,
            Reg32::r10d => 10,
            Reg32::r11d => 11,
            Reg32::r12d => 12,
            Reg32::r13d => 13,
            Reg32::r14d => 14,
            Reg32::r15d => 15,
        }
    }

    fn is_ext(self) -> (r: bool) {
        self.idx() >= 8
    }

    fn rexw(self) -> (r: bool) {
        false
    }

    fn need_rex(self) -> (r: bool) {
        self.idx() >= 8
    }

    fn is_w16(self) -> (r: bool) {
        false
    }
}

impl Reg for Reg16 {
    open spec fn sidx(self) -> u8 {
        match self {
            Reg16::ax => 0,
            Reg16::cx => 1,
            Reg16::dx => 2,
            Reg16::bx => 3,
            Reg16::sp => 4,
            Reg16::bp => 5,
            Reg16::si => 6,
            Reg16::di => 7,
            Reg16::r8w => 8,
            Reg16::r9w => 9,
            Reg16::r10w => 10,
            Reg16::r11w => 11,
            Reg16::r12w => 12,
            Reg16::r13w => 13,
            Reg16::r14w => 14,
            Reg16::r15w => 15,
        }
    }

    open spec fn srexw(self) -> bool {
        false
    }

    open spec fn sneed_rex(self) -> bool {
        self.sidx() >= 8
    }

    open spec fn shigh(self) -> bool {
        false
    }

    open spec fn sw16(self) -> bool {
        true
    }

    proof fn lemma_idx_bound(self) {
    }

    fn idx(self) -> (r: u8) {
        match self {
            Reg16::ax => 0,
            Reg16::cx => 1,
            Reg16::dx => 2,
            Reg16::bx => 3,
            Reg16::sp => 4,
            Reg16::bp => 5,
            Reg16::si => 6,
            Reg16::di => 7,
            Reg16::r8w => 8,
            Reg16::r9w => 9,
            Reg16::r10w => 10,
            Reg16::r11w => 11,
            Reg16::r12w => 12,
            Reg16::r13w => 13,
            Reg16::r14w => 14,
            Reg16::r15w => 15,
        }
    }

    fn is_ext(self) -> (r: bool) {
        self.idx() >= 8
    }

    fn rexw(self) -> (r: bool) {
        false
    }

    fn need_rex(self) -> (r: bool) {
        self.idx() >= 8
    }

    fn is_w16(self) -> (r: bool) {
        true
    }
}

impl Reg for Reg8 {
    open spec fn sidx(self) -> u8 {
        match self {
            Reg8::al => 0,
            Reg8::cl => 1,
            Reg8::dl => 2,
            Reg8::bl => 3,
            Reg8::spl => 4,
            Reg8::bpl => 5,
            Reg8::sil => 6,
            Reg8::dil => 7,
            Reg8::r8l => 8,
            Reg8::r9l => 9,
            Reg8::r10l => 10,
            Reg8::r11l => 11,
            Reg8::r12l => 12,
            Reg8::r13l => 13,
            Reg8::r14l => 14,
            Reg8::r15l => 15,
            Reg8::ah => 4,
            Reg8::ch => 5,
            Reg8::dh => 6,
            Reg8::bh => 7,
        }
    }

    open spec fn srexw(self) -> bool {
        false
    }

    open spec fn sneed_rex(self) -> bool {
        matches!(
            self,
            Reg8::spl | Reg8::bpl | Reg8::sil | Reg8::dil | Reg8::r8l | Reg8::r9l | Reg8::r10l
                | Reg8::r11l | Reg8::r12l | Reg8::r13l | Reg8::r14l | Reg8::r15l
        )
    }

    open spec fn shigh(self) -> bool {
        matches!(self, Reg8::ah | Reg8::ch | Reg8::dh | Reg8::bh)
    }

    open spec fn sw16(self) -> bool {
        false
    }

    proof fn lemma_idx_bound(self) {
    }

    fn idx(self) -> (r: u8) {
        match self {
            Reg8::al => 0,
            Reg8::cl => 1,
            Reg8::dl => 2,
            Reg8::bl => 3,
            Reg8::spl => 4,
            Reg8::bpl => 5,
            Reg8::sil => 6,
            Reg8::dil => 7,
            Reg8::r8l => 8,
            Reg8::r9l => 9,
            Reg8::r10l => 10,
            Reg8::r11l => 11,
            Reg8::r12l => 12,
            Reg8::r13l => 13,
            Reg8::r14l => 14,
            Reg8::r15l => 15,
            Reg8::ah => 4,
            Reg8::ch => 5,
            Reg8::dh => 6,
            Reg8::bh => 7,
        }
    }

    fn is_ext(self) -> (r: bool) {
        self.idx() >= 8
    }

    fn rexw(self) -> (r: bool) {
        false
    }

    fn need_rex(self) -> (r: bool) {
        matches!(
            self,
            Reg8::spl | Reg8::bpl | Reg8::sil | Reg8::dil | Reg8::r8l | Reg8::r9l | Reg8::r10l
                | Reg8::r11l | Reg8::r12l | Reg8::r13l | Reg8::r14l | Reg8::r15l
        )
    }

    fn is_w16(self) -> (r: bool) {
        false
    }
}

} // verus!
