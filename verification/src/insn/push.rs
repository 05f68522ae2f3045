use super::Push;
use crate::encoder::r_bytes;
use crate::Reg16;
use crate::Reg64;
use crate::Asm;
use vstd::prelude::*;

verus! {

impl Push<Reg64> for Asm {
    open spec fn push_req(self, op1: Reg64) -> bool {
        true
    }

    open spec fn push_ens(self, post: Asm, op1: Reg64) -> bool {
        post@ == self@ + r_bytes(0xff, 6, op1)
    }

    fn push(&mut self, op1: Reg64) {
        self.encode_r(0xff, 6, op1);
    }
}

impl Push<Reg16> for Asm {
    open spec fn push_req(self, op1: Reg16) -> bool {
        true
    }

    open spec fn push_ens(self, post: Asm, op1: Reg16) -> bool {
        post@ == self@ + r_bytes(0xff, 6, op1)
    }

    fn push(&mut self, op1: Reg16) {
        self.encode_r(0xff, 6, op1);
    }
}

} // verus!
