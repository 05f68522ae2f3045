use super::Xor;
use crate::encoder::rr_bytes;
use crate::encoder::rr_ok;
use crate::Reg64;
use crate::Asm;
use vstd::prelude::*;

verus! {

impl Xor<Reg64, Reg64> for Asm {
    open spec fn xor_req(self, op1: Reg64, op2: Reg64) -> bool {
        rr_ok(op1, op2)
    }

    open spec fn xor_ens(self, post: Asm, op1: Reg64, op2: Reg64) -> bool {
        post@ == self@ + rr_bytes(seq![0x31u8], op1, op2)
    }

    fn xor(&mut self, op1: Reg64, op2: Reg64) {
        let opc: [u8; 1] = [0x31];
        proof {
            assert(opc@ =~= seq![0x31u8]);
        }
        self.encode_rr(opc.as_slice(), op1, op2);
    }
}

} // verus!
