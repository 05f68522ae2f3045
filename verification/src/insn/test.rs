use super::Test;
use crate::encoder::mi_bytes;
use crate::encoder::rr_bytes;
use crate::encoder::rr_ok;
use crate::Imm;
use crate::Imm16;
use crate::Mem;
use crate::Mem16;
use crate::Reg32;
use crate::Reg64;
use crate::Asm;
use vstd::prelude::*;

verus! {

impl Test<Reg64, Reg64> for Asm {
    open spec fn test_req(self, op1: Reg64, op2: Reg64) -> bool {
        rr_ok(op1, op2)
    }

    open spec fn test_ens(self, post: Asm, op1: Reg64, op2: Reg64) -> bool {
        post@ == self@ + rr_bytes(seq![0x85u8], op1, op2)
    }

    fn test(&mut self, op1: Reg64, op2: Reg64) {
        let opc: [u8; 1] = [0x85];
        proof {
            assert(opc@ =~= seq![0x85u8]);
        }
        self.encode_rr(opc.as_slice(), op1, op2);
    }
}

impl Test<Reg32, Reg32> for Asm {
    open spec fn test_req(self, op1: Reg32, op2: Reg32) -> bool {
        rr_ok(op1, op2)
    }

    open spec fn test_ens(self, post: Asm, op1: Reg32, op2: Reg32) -> bool {
        post@ == self@ + rr_bytes(seq![0x85u8], op1, op2)
    }

    fn test(&mut self, op1: Reg32, op2: Reg32) {
        let opc: [u8; 1] = [0x85];
        proof {
            assert(opc@ =~= seq![0x85u8]);
        }
        self.encode_rr(opc.as_slice(), op1, op2);
    }
}

impl Test<Mem16, Imm16> for Asm {
    open spec fn test_req(self, op1: Mem16, op2: Imm16) -> bool {
        op1.sop().swf()
    }

    open spec fn test_ens(self, post: Asm, op1: Mem16, op2: Imm16) -> bool {
        post@ == self@ + mi_bytes(0xf7, 0, op1.sop(), op1.s16(), op1.s64(), op2.sbytes())
    }

    fn test(&mut self, op1: Mem16, op2: Imm16) {
        self.encode_mi(0xf7, 0, op1, op2);
    }
}

} // verus!
