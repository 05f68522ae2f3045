//! Trait definitions of the supported instructions.
//!
//! Each mnemonic is a trait generic over its operand-kind tuple; the
//! encoder implements one instance per supported tuple.  Every trait
//! carries a pair of spec functions: the `_req` function states the
//! operand-mode precondition of the form, and the `_ens` function pins
//! down the bytes the instruction appends to the encoder buffer.  The
//! implementations give both an exact body, so a caller with concrete
//! operand types sees a byte-exact contract.

use crate::label::Label;
use vstd::prelude::*;

mod add;
mod call;
mod cmovnz;
mod cmovz;
mod cmp;
mod dec;
mod inc;
mod jmp;
mod jnz;
mod jz;
mod mov;
mod nop;
mod pop;
mod push;
mod ret;
mod sub;
mod test;
mod xor;

verus! {

/// Trait for the `add` instruction kinds.
pub trait Add<T, U>: Sized {
    /// Operand-mode precondition of this `add` form.
    spec fn add_req(self, op1: T, op2: U) -> bool;

    /// The exact bytes this `add` form appends.
    spec fn add_ens(self, post: Self, op1: T, op2: U) -> bool;

    /// Emit an add instruction.
    fn add(&mut self, op1: T, op2: U)
        requires
            old(self).add_req(op1, op2),
        ensures
            old(self).add_ens(*final(self), op1, op2),
    ;
}

/// Trait for the `call` instruction kinds.
pub trait Call<T>: Sized {
    /// Operand-mode precondition of this `call` form.
    spec fn call_req(self, op1: T) -> bool;

    /// The exact bytes this `call` form appends.
    spec fn call_ens(self, post: Self, op1: T) -> bool;

    /// Emit a call instruction.
    fn call(&mut self, op1: T)
        requires
            old(self).call_req(op1),
        ensures
            old(self).call_ens(*final(self), op1),
    ;
}

/// Trait for the `cmovnz` instruction kinds.
pub trait Cmovnz<T, U>: Sized {
    /// Operand-mode precondition of this `cmovnz` form.
    spec fn cmovnz_req(self, op1: T, op2: U) -> bool;

    /// The exact bytes this `cmovnz` form appends.
    spec fn cmovnz_ens(self, post: Self, op1: T, op2: U) -> bool;

    /// Emit a (conditional) move if not zero instruction.
    ///
    /// The move is only committed if `ZF = 0`.
    fn cmovnz(&mut self, op1: T, op2: U)
        requires
            old(self).cmovnz_req(op1, op2),
        ensures
            old(self).cmovnz_ens(*final(self), op1, op2),
    ;
}

/// Trait for the `cmovz` instruction kinds.
pub trait Cmovz<T, U>: Sized {
    /// Operand-mode precondition of this `cmovz` form.
    spec fn cmovz_req(self, op1: T, op2: U) -> bool;

    /// The exact bytes this `cmovz` form appends.
    spec fn cmovz_ens(self, post: Self, op1: T, op2: U) -> bool;

    /// Emit a (conditional) move if zero instruction.
    ///
    /// The move is only committed if `ZF = 1`.
    fn cmovz(&mut self, op1: T, op2: U)
        requires
            old(self).cmovz_req(op1, op2),
        ensures
            old(self).cmovz_ens(*final(self), op1, op2),
    ;
}

/// Trait for the `cmp` instruction kinds.
pub trait Cmp<T, U>: Sized {
    /// Operand-mode precondition of this `cmp` form.
    spec fn cmp_req(self, op1: T, op2: U) -> bool;

    /// The exact bytes this `cmp` form appends.
    spec fn cmp_ens(self, post: Self, op1: T, op2: U) -> bool;

    /// Emit a compare instruction.
    ///
    /// Computes `op2 - op1` and sets the status flags in the same way
    /// as the `sub` instruction; the result is discarded.
    fn cmp(&mut self, op1: T, op2: U)
        requires
            old(self).cmp_req(op1, op2),
        ensures
            old(self).cmp_ens(*final(self), op1, op2),
    ;
}

/// Trait for the `dec` instruction kinds.
pub trait Dec<T>: Sized {
    /// Operand-mode precondition of this `dec` form.
    spec fn dec_req(self, op1: T) -> bool;

    /// The exact bytes this `dec` form appends.
    spec fn dec_ens(self, post: Self, op1: T) -> bool;

    /// Emit a decrement instruction.
    fn dec(&mut self, op1: T)
        requires
            old(self).dec_req(op1),
        ensures
            old(self).dec_ens(*final(self), op1),
    ;
}

/// Trait for the `inc` instruction kinds.
pub trait Inc<T>: Sized {
    /// Operand-mode precondition of this `inc` form.
    spec fn inc_req(self, op1: T) -> bool;

    /// The exact bytes this `inc` form appends.
    spec fn inc_ens(self, post: Self, op1: T) -> bool;

    /// Emit an increment instruction.
    fn inc(&mut self, op1: T)
        requires
            old(self).inc_req(op1),
        ensures
            old(self).inc_ens(*final(self), op1),
    ;
}

/// Trait for the `jmp` instruction kinds.
pub trait Jmp<T>: Sized {
    /// Precondition of this `jmp` form.
    spec fn jmp_req(self, op1: T) -> bool;

    /// The effect of this `jmp` form on the encoder and the label.
    spec fn jmp_ens(self, post: Self, op1: T) -> bool;

    /// Emit an unconditional jump instruction.
    fn jmp(&mut self, op1: T)
        requires
            old(self).jmp_req(op1),
        ensures
            old(self).jmp_ens(*final(self), op1),
    ;
}

/// Trait for the `jnz` instruction kinds.
pub trait Jnz<T>: Sized {
    /// Precondition of this `jnz` form.
    spec fn jnz_req(self, op1: T) -> bool;

    /// The effect of this `jnz` form on the encoder and the label.
    spec fn jnz_ens(self, post: Self, op1: T) -> bool;

    /// Emit a conditional jump if not zero instruction (`ZF = 0`).
    fn jnz(&mut self, op1: T)
        requires
            old(self).jnz_req(op1),
        ensures
            old(self).jnz_ens(*final(self), op1),
    ;
}

/// Trait for the `jz` instruction kinds.
pub trait Jz<T>: Sized {
    /// Precondition of this `jz` form.
    spec fn jz_req(self, op1: T) -> bool;

    /// The effect of this `jz` form on the encoder and the label.
    spec fn jz_ens(self, post: Self, op1: T) -> bool;

    /// Emit a conditional jump if zero instruction (`ZF = 1`).
    fn jz(&mut self, op1: T)
        requires
            old(self).jz_req(op1),
        ensures
            old(self).jz_ens(*final(self), op1),
    ;
}

/// Trait for the `mov` instruction kinds.
pub trait Mov<T, U>: Sized {
    /// Operand-mode precondition of this `mov` form.
    spec fn mov_req(self, op1: T, op2: U) -> bool;

    /// The exact bytes this `mov` form appends.
    spec fn mov_ens(self, post: Self, op1: T, op2: U) -> bool;

    /// Emit a move instruction.
    fn mov(&mut self, op1: T, op2: U)
        requires
            old(self).mov_req(op1, op2),
        ensures
            old(self).mov_ens(*final(self), op1, op2),
    ;
}

/// Trait for the `pop` instruction kinds.
pub trait Pop<T>: Sized {
    /// Operand-mode precondition of this `pop` form.
    spec fn pop_req(self, op1: T) -> bool;

    /// The exact bytes this `pop` form appends.
    spec fn pop_ens(self, post: Self, op1: T) -> bool;

    /// Emit a pop instruction.
    fn pop(&mut self, op1: T)
        requires
            old(self).pop_req(op1),
        ensures
            old(self).pop_ens(*final(self), op1),
    ;
}

/// Trait for the `push` instruction kinds.
pub trait Push<T>: Sized {
    /// Operand-mode precondition of this `push` form.
    spec fn push_req(self, op1: T) -> bool;

    /// The exact bytes this `push` form appends.
    spec fn push_ens(self, post: Self, op1: T) -> bool;

    /// Emit a push instruction.
    fn push(&mut self, op1: T)
        requires
            old(self).push_req(op1),
        ensures
            old(self).push_ens(*final(self), op1),
    ;
}

/// Trait for the `sub` instruction kinds.
pub trait Sub<T, U>: Sized {
    /// Operand-mode precondition of this `sub` form.
    spec fn sub_req(self, op1: T, op2: U) -> bool;

    /// The exact bytes this `sub` form appends.
    spec fn sub_ens(self, post: Self, op1: T, op2: U) -> bool;

    /// Emit a subtract instruction.
    fn sub(&mut self, op1: T, op2: U)
        requires
            old(self).sub_req(op1, op2),
        ensures
            old(self).sub_ens(*final(self), op1, op2),
    ;
}

/// Trait for the `test` instruction kinds.
pub trait Test<T, U>: Sized {
    /// Operand-mode precondition of this `test` form.
    spec fn test_req(self, op1: T, op2: U) -> bool;

    /// The exact bytes this `test` form appends.
    spec fn test_ens(self, post: Self, op1: T, op2: U) -> bool;

    /// Emit a logical compare instruction.
    ///
    /// Computes the bit-wise logical AND of the first and the second
    /// operand and sets the `SF`, `ZF`, and `PF` status flags; the
    /// result is discarded.
    fn test(&mut self, op1: T, op2: U)
        requires
            old(self).test_req(op1, op2),
        ensures
            old(self).test_ens(*final(self), op1, op2),
    ;
}

/// Trait for the `xor` instruction kinds.
pub trait Xor<T, U>: Sized {
    /// Operand-mode precondition of this `xor` form.
    spec fn xor_req(self, op1: T, op2: U) -> bool;

    /// The exact bytes this `xor` form appends.
    spec fn xor_ens(self, post: Self, op1: T, op2: U) -> bool;

    /// Emit a xor instruction.
    fn xor(&mut self, op1: T, op2: U)
        requires
            old(self).xor_req(op1, op2),
        ensures
            old(self).xor_ens(*final(self), op1, op2),
    ;
}

/// The precondition shared by all label jumps: the label is
/// well-formed for the current buffer, and the patched buffer
/// positions keep fitting in signed 32 bits.
pub open spec fn jmp_label_req(code: Seq<u8>, label: Label, opc_len: int) -> bool {
    &&& label.swf(code.len() as int)
    &&& code.len() + opc_len + 4 <= 0x7fff_ffff
}

/// The bytes shared by all label jumps, determined by the label state
/// before the jump: an unbound label gets a placeholder, a bound label
/// is resolved immediately against its location.
pub open spec fn jmp_label_bytes_ens(pre: Seq<u8>, post: Seq<u8>, lbl: Label, opc: Seq<u8>) -> bool {
    &&& post.len() == pre.len() + opc.len() + 4
    &&& (lbl.sloc() is None ==> post == pre + crate::encoder::jmp_unbound_bytes(opc))
    &&& (lbl.sloc() matches Some(l) ==> post == pre + crate::encoder::jmp_bound_bytes(
        opc,
        pre.len() as int,
        l as int,
    ))
}

} // verus!
