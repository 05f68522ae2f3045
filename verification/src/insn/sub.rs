use super::Sub;
use crate::encoder::mi_bytes;
use crate::encoder::rr_bytes;
use crate::encoder::rr_ok;
use crate::Imm;
use crate::Imm8;
use crate::Mem;
use crate::Mem8;
use crate::Reg64;
use crate::Asm;
use vstd::prelude::*;

verus! {

impl Sub<Reg64, Reg64> for Asm {
    open spec fn sub_req(self, op1: Reg64, op2: Reg64) -> bool {
        rr_ok(op1, op2)
    }

    open spec fn sub_ens(self, post: Asm, op1: Reg64, op2: Reg64) -> bool {
        post@ == self@ + rr_bytes(seq![0x29u8], op1, op2)
    }

    fn sub(&mut self, op1: Reg64, op2: Reg64) {
        let opc: [u8; 1] = [0x29];
        proof {
            assert(opc@ =~= seq![0x29u8]);
        }
        self.encode_rr(opc.as_slice(), op1, op2);
    }
}

impl Sub<Mem8, Imm8> for Asm {
    open spec fn sub_req(self, op1: Mem8, op2: Imm8) -> bool {
        op1.sop().swf()
    }

    open spec fn sub_ens(self, post: Asm, op1: Mem8, op2: Imm8) -> bool {
        post@ == self@ + mi_bytes(0x80, 5, op1.sop(), op1.s16(), op1.s64(), op2.sbytes())
    }

    fn sub(&mut self, op1: Mem8, op2: Imm8) {
        self.encode_mi(0x80, 5, op1, op2);
    }
}

} // verus!
