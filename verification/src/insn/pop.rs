use super::Pop;
use crate::encoder::r_bytes;
use crate::Reg16;
use crate::Reg64;
use crate::Asm;
use vstd::prelude::*;

verus! {

impl Pop<Reg64> for Asm {
    open spec fn pop_req(self, op1: Reg64) -> bool {
        true
    }

    open spec fn pop_ens(self, post: Asm, op1: Reg64) -> bool {
        post@ == self@ + r_bytes(0x8f, 0, op1)
    }

    fn pop(&mut self, op1: Reg64) {
        self.encode_r(0x8f, 0, op1);
    }
}

impl Pop<Reg16> for Asm {
    open spec fn pop_req(self, op1: Reg16) -> bool {
        true
    }

    open spec fn pop_ens(self, post: Asm, op1: Reg16) -> bool {
        post@ == self@ + r_bytes(0x8f, 0, op1)
    }

    fn pop(&mut self, op1: Reg16) {
        self.encode_r(0x8f, 0, op1);
    }
}

} // verus!
