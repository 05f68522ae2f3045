//! Crate prelude, which can be used to import the most important
//! types at once.

pub use crate::Asm;
pub use crate::MemOp;

pub use crate::imm::Imm16;
pub use crate::imm::Imm32;
pub use crate::imm::Imm64;
pub use crate::imm::Imm8;

pub use crate::label::Label;

pub use crate::mem::Mem16;
pub use crate::mem::Mem32;
pub use crate::mem::Mem64;
pub use crate::mem::Mem8;

pub use crate::reg::Reg16;
pub use crate::reg::Reg32;
pub use crate::reg::Reg64;
pub use crate::reg::Reg8;

pub use crate::insn::Add;
pub use crate::insn::Dec;
pub use crate::insn::Jmp;
pub use crate::insn::Jnz;
pub use crate::insn::Jz;
pub use crate::insn::Mov;
pub use crate::insn::Test;
