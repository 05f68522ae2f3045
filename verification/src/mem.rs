//! Memory operands tagged with an access-size hint.
//!
//! The four sized wrappers share the addressing modes of [`MemOp`]; the
//! size hint only selects the opcode, the legacy operand-size prefix and
//! the `REX.W` bit in instructions whose other operands do not fix the
//! operand width.

use crate::reg::Reg64;
use crate::MemOp;
use vstd::prelude::*;

verus! {

/// Interface of the four sized memory operands.
pub trait Mem: Sized {
    /// The underlying addressing mode.
    spec fn sop(self) -> MemOp;

    /// True if the access-size hint is 16 bit (legacy prefix `0x66`).
    spec fn s16(self) -> bool;

    /// True if the access-size hint is 64 bit (`REX.W`).
    spec fn s64(self) -> bool;

    /// The underlying addressing mode.
    fn op(&self) -> (r: MemOp)
        ensures
            r == self.sop(),
    ;

    /// Whether the access-size hint is 16 bit.
    fn w16(&self) -> (r: bool)
        ensures
            r == self.s16(),
    ;

    /// Whether the access-size hint is 64 bit.
    fn w64(&self) -> (r: bool)
        ensures
            r == self.s64(),
    ;
}

/// A memory operand with a byte (8 bit) access-size hint.
pub struct Mem8(pub MemOp);

/// A memory operand with a word (16 bit) access-size hint.
pub struct Mem16(pub MemOp);

/// A memory operand with a dword (32 bit) access-size hint.
pub struct Mem32(pub MemOp);

/// A memory operand with a qword (64 bit) access-size hint.
pub struct Mem64(pub MemOp);

impl Mem for Mem8 {
    open spec fn sop(self) -> MemOp {
        self.0
    }

    open spec fn s16(self) -> bool {
        false
    }

    open spec fn s64(self) -> bool {
        false
    }

    fn op(&self) -> (r: MemOp) {
        self.0
    }

    fn w16(&self) -> (r: bool) {
        false
    }

    fn w64(&self) -> (r: bool) {
        false
    }
}

impl Mem8 {
    /// Create a memory operand with `indirect` addressing mode,
    /// e.g. `[rax]`.
    pub fn indirect(base: Reg64) -> (r: Mem8)
        ensures
            r.sop() == MemOp::Indirect(base),
    {
        Mem8(MemOp::Indirect(base))
    }

    /// Create a memory operand with `indirect + displacement`
    /// addressing mode, e.g. `[rax + 0x10]`.
    pub fn indirect_disp(base: Reg64, disp: i32) -> (r: Mem8)
        ensures
            r.sop() == MemOp::IndirectDisp(base, disp),
    {
        Mem8(MemOp::IndirectDisp(base, disp))
    }

    /// Create a memory operand with `base + index` addressing mode,
    /// e.g. `[rax + rcx]`.
    pub fn indirect_base_index(base: Reg64, index: Reg64) -> (r: Mem8)
        ensures
            r.sop() == MemOp::IndirectBaseIndex(base, index),
    {
        Mem8(MemOp::IndirectBaseIndex(base, index))
    }
}

impl Mem for Mem16 {
    open spec fn sop(self) -> MemOp {
        self.0
    }

    open spec fn s16(self) -> bool {
        true
    }

    open spec fn s64(self) -> bool {
        false
    }

    fn op(&self) -> (r: MemOp) {
        self.0
    }

    fn w16(&self) -> (r: bool) {
        true
    }

    fn w64(&self) -> (r: bool) {
        false
    }
}

impl Mem16 {
    /// Create a memory operand with `indirect` addressing mode,
    /// e.g. `[rax]`.
    pub fn indirect(base: Reg64) -> (r: Mem16)
        ensures
            r.sop() == MemOp::Indirect(base),
    {
        Mem16(MemOp::Indirect(base))
    }

    /// Create a memory operand with `indirect + displacement`
    /// addressing mode, e.g. `[rax + 0x10]`.
    pub fn indirect_disp(base: Reg64, disp: i32) -> (r: Mem16)
        ensures
            r.sop() == MemOp::IndirectDisp(base, disp),
    {
        Mem16(MemOp::IndirectDisp(base, disp))
    }

    /// Create a memory operand with `base + index` addressing mode,
    /// e.g. `[rax + rcx]`.
    pub fn indirect_base_index(base: Reg64, index: Reg64) -> (r: Mem16)
        ensures
            r.sop() == MemOp::IndirectBaseIndex(base, index),
    {
        Mem16(MemOp::IndirectBaseIndex(base, index))
    }
}

impl Mem for Mem32 {
    open spec fn sop(self) -> MemOp {
        self.0
    }

    open spec fn s16(self) -> bool {
        false
    }

    open spec fn s64(self) -> bool {
        false
    }

    fn op(&self) -> (r: MemOp) {
        self.0
    }

    fn w16(&self) -> (r: bool) {
        false
    }

    fn w64(&self) -> (r: bool) {
        false
    }
}

impl Mem32 {
    /// Create a memory operand with `indirect` addressing mode,
    /// e.g. `[rax]`.
    pub fn indirect(base: Reg64) -> (r: Mem32)
        ensures
            r.sop() == MemOp::Indirect(base),
    {
        Mem32(MemOp::Indirect(base))
    }

    /// Create a memory operand with `indirect + displacement`
    /// addressing mode, e.g. `[rax + 0x10]`.
    pub fn indirect_disp(base: Reg64, disp: i32) -> (r: Mem32)
        ensures
            r.sop() == MemOp::IndirectDisp(base, disp),
    {
        Mem32(MemOp::IndirectDisp(base, disp))
    }

    /// Create a memory operand with `base + index` addressing mode,
    /// e.g. `[rax + rcx]`.
    pub fn indirect_base_index(base: Reg64, index: Reg64) -> (r: Mem32)
        ensures
            r.sop() == MemOp::IndirectBaseIndex(base, index),
    {
        Mem32(MemOp::IndirectBaseIndex(base, index))
    }
}

impl Mem for Mem64 {
    open spec fn sop(self) -> MemOp {
        self.0
    }

    open spec fn s16(self) -> bool {
        false
    }

    open spec fn s64(self) -> bool {
        true
    }

    fn op(&self) -> (r: MemOp) {
        self.0
    }

    fn w16(&self) -> (r: bool) {
        false
    }

    fn w64(&self) -> (r: bool) {
        true
    }
}

impl Mem64 {
    /// Create a memory operand with `indirect` addressing mode,
    /// e.g. `[rax]`.
    pub fn indirect(base: Reg64) -> (r: Mem64)
        ensures
            r.sop() == MemOp::Indirect(base),
    {
        Mem64(MemOp::Indirect(base))
    }

    /// Create a memory operand with `indirect + displacement`
    /// addressing mode, e.g. `[rax + 0x10]`.
    pub fn indirect_disp(base: Reg64, disp: i32) -> (r: Mem64)
        ensures
            r.sop() == MemOp::IndirectDisp(base, disp),
    {
        Mem64(MemOp::IndirectDisp(base, disp))
    }

    /// Create a memory operand with `base + index` addressing mode,
    /// e.g. `[rax + rcx]`.
    pub fn indirect_base_index(base: Reg64, index: Reg64) -> (r: Mem64)
        ensures
            r.sop() == MemOp::IndirectBaseIndex(base, index),
    {
        Mem64(MemOp::IndirectBaseIndex(base, index))
    }
}

} // verus!
