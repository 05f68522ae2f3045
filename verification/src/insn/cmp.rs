use super::Cmp;
use crate::encoder::mi_bytes;
use crate::encoder::rr_bytes;
use crate::encoder::rr_ok;
use crate::Imm;
use crate::Imm16;
use crate::Imm8;
use crate::Mem;
use crate::Mem16;
use crate::Mem8;
use crate::Reg64;
use crate::Asm;
use vstd::prelude::*;

verus! {

impl Cmp<Mem8, Imm8> for Asm {
    open spec fn cmp_req(self, op1: Mem8, op2: Imm8) -> bool {
        op1.sop().swf()
    }

    open spec fn cmp_ens(self, post: Asm, op1: Mem8, op2: Imm8) -> bool {
        post@ == self@ + mi_bytes(0x80, 7, op1.sop(), op1.s16(), op1.s64(), op2.sbytes())
    }

    fn cmp(&mut self, op1: Mem8, op2: Imm8) {
        self.encode_mi(0x80, 7, op1, op2);
    }
}

impl Cmp<Mem16, Imm16> for Asm {
    open spec fn cmp_req(self, op1: Mem16, op2: Imm16) -> bool {
        op1.sop().swf()
    }

    open spec fn cmp_ens(self, post: Asm, op1: Mem16, op2: Imm16) -> bool {
        post@ == self@ + mi_bytes(0x81, 7, op1.sop(), op1.s16(), op1.s64(), op2.sbytes())
    }

    fn cmp(&mut self, op1: Mem16, op2: Imm16) {
        self.encode_mi(0x81, 7, op1, op2);
    }
}

impl Cmp<Reg64, Reg64> for Asm {
    open spec fn cmp_req(self, op1: Reg64, op2: Reg64) -> bool {
        rr_ok(op1, op2)
    }

    open spec fn cmp_ens(self, post: Asm, op1: Reg64, op2: Reg64) -> bool {
        post@ == self@ + rr_bytes(seq![0x3bu8], op1, op2)
    }

    fn cmp(&mut self, op1: Reg64, op2: Reg64) {
        let opc: [u8; 1] = [0x3b];
        proof {
            assert(opc@ =~= seq![0x3bu8]);
        }
        self.encode_rr(opc.as_slice(), op1, op2);
    }
}

} // verus!
