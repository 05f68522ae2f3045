use super::Cmovz;
use crate::encoder::rr_bytes;
use crate::encoder::rr_ok;
use crate::Reg64;
use crate::Asm;
use vstd::prelude::*;

verus! {

impl Cmovz<Reg64, Reg64> for Asm {
    open spec fn cmovz_req(self, op1: Reg64, op2: Reg64) -> bool {
        rr_ok(op2, op1)
    }

    open spec fn cmovz_ens(self, post: Asm, op1: Reg64, op2: Reg64) -> bool {
        post@ == self@ + rr_bytes(seq![0x0fu8, 0x44u8], op2, op1)
    }

    fn cmovz(&mut self, op1: Reg64, op2: Reg64) {
        let opc: [u8; 2] = [0x0f, 0x44];
        proof {
            assert(opc@ =~= seq![0x0fu8, 0x44u8]);
        }
        self.encode_rr(opc.as_slice(), op2, op1);
    }
}

} // verus!
