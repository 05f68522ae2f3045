//! An `x86-64` jit assembler with byte-exact encoding contracts.
//!
//! The crate provides typed register, immediate and memory operands, a
//! label type for forward jump targets, and the [`Asm`] encoder whose
//! instruction methods append machine-code bytes to an internal buffer.
//! Every emission method carries an `ensures` clause that pins down the
//! emitted bytes exactly; label binding is specified down to the patched
//! `rel32` displacements.

use vstd::prelude::*;

mod encoder;
mod imm;
mod label;
mod mem;
mod reg;
mod rt;

pub mod insn;
pub mod prelude;

pub use encoder::Asm;

pub use imm::Imm;
pub use imm::Imm16;
pub use imm::Imm32;
pub use imm::Imm64;
pub use imm::Imm8;

pub use label::Label;

pub use mem::Mem;
pub use mem::Mem16;
pub use mem::Mem32;
pub use mem::Mem64;
pub use mem::Mem8;

pub use rt::lemma_reserved_disjoint;
pub use rt::reserve_ok;
pub use rt::PageCursor;
pub use rt::ReserveError;

pub use reg::Reg;
pub use reg::Reg16;
pub use reg::Reg32;
pub use reg::Reg64;
pub use reg::Reg8;

verus! {

/// Type representing a memory operand: an addressing mode over 64-bit
/// base (and index) registers.
#[derive(Clone, Copy, Debug)]
pub enum MemOp {
    /// An indirect memory operand, e.g. `mov [rax], rcx`.
    Indirect(Reg64),
    /// An indirect memory operand with additional displacement,
    /// e.g. `mov [rax + 0x10], rcx`.
    IndirectDisp(Reg64, i32),
    /// An indirect memory operand in the form base + index,
    /// e.g. `mov [rax + rcx], rdx`.
    IndirectBaseIndex(Reg64, Reg64),
}

impl MemOp {
    /// The base address register of the memory operand.
    pub open spec fn sbase(self) -> Reg64 {
        match self {
            MemOp::Indirect(base) => base,
            MemOp::IndirectDisp(base, _) => base,
            MemOp::IndirectBaseIndex(base, _) => base,
        }
    }

    /// The index register of the memory operand; modes without an
    /// index use `rax`, whose encoding index is zero.
    pub open spec fn sindex(self) -> Reg64 {
        match self {
            MemOp::Indirect(_) => Reg64::rax,
            MemOp::IndirectDisp(_, _) => Reg64::rax,
            MemOp::IndirectBaseIndex(_, index) => index,
        }
    }

    /// Operand-mode precondition of every instruction taking a memory
    /// operand: the base must not collide with the SIB escape
    /// (`rsp`/`r12` as plain indirect base), a `mod=00` base must not
    /// collide with RIP-relative addressing (`rbp`/`r13`), and `rsp`
    /// cannot serve as an index register (its encoding means
    /// "no index").
    pub open spec fn swf(self) -> bool {
        match self {
            MemOp::Indirect(base) => !base.sneed_sib() && !base.sis_pc_rel(),
            MemOp::IndirectDisp(base, _) => !base.sneed_sib(),
            MemOp::IndirectBaseIndex(base, index) => !base.sis_pc_rel() && index
                != Reg64::rsp,
        }
    }

    /// Get the base address register of the memory operand.
    pub fn base(&self) -> (r: Reg64)
        ensures
            r == self.sbase(),
    {
        match *self {
            MemOp::Indirect(base) => base,
            MemOp::IndirectDisp(base, _) => base,
            MemOp::IndirectBaseIndex(base, _) => base,
        }
    }

    /// Get the index register of the memory operand.
    pub fn index(&self) -> (r: Reg64)
        ensures
            r == self.sindex(),
    {
        match *self {
            MemOp::Indirect(_) => Reg64::rax,
            MemOp::IndirectDisp(_, _) => Reg64::rax,
            MemOp::IndirectBaseIndex(_, index) => index,
        }
    }
}

} // verus!
