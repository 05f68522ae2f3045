use super::Add;
use crate::encoder::mi_bytes;
use crate::encoder::mr_bytes;
use crate::encoder::mr_ok;
use crate::encoder::rr_bytes;
use crate::encoder::rr_ok;
use crate::Imm;
use crate::Imm16;
use crate::Imm8;
use crate::Mem;
use crate::Mem16;
use crate::Mem32;
use crate::Mem64;
use crate::Mem8;
use crate::Reg16;
use crate::Reg32;
use crate::Reg64;
use crate::Asm;
use vstd::prelude::*;

verus! {

impl Add<Reg32, Reg32> for Asm {
    open spec fn add_req(self, op1: Reg32, op2: Reg32) -> bool {
        rr_ok(op1, op2)
    }

    open spec fn add_ens(self, post: Asm, op1: Reg32, op2: Reg32) -> bool {
        post@ == self@ + rr_bytes(seq![0x01u8], op1, op2)
    }

    fn add(&mut self, op1: Reg32, op2: Reg32) {
        let opc: [u8; 1] = [0x01];
        proof {
            assert(opc@ =~= seq![0x01u8]);
        }
        self.encode_rr(opc.as_slice(), op1, op2);
    }
}

impl Add<Reg64, Reg64> for Asm {
    open spec fn add_req(self, op1: Reg64, op2: Reg64) -> bool {
        rr_ok(op1, op2)
    }

    open spec fn add_ens(self, post: Asm, op1: Reg64, op2: Reg64) -> bool {
        post@ == self@ + rr_bytes(seq![0x01u8], op1, op2)
    }

    fn add(&mut self, op1: Reg64, op2: Reg64) {
        let opc: [u8; 1] = [0x01];
        proof {
            assert(opc@ =~= seq![0x01u8]);
        }
        self.encode_rr(opc.as_slice(), op1, op2);
    }
}

impl Add<Mem16, Reg16> for Asm {
    open spec fn add_req(self, op1: Mem16, op2: Reg16) -> bool {
        mr_ok(op1.sop(), op2)
    }

    open spec fn add_ens(self, post: Asm, op1: Mem16, op2: Reg16) -> bool {
        post@ == self@ + mr_bytes(seq![0x01u8], op1.sop(), op2)
    }

    fn add(&mut self, op1: Mem16, op2: Reg16) {
        self.encode_mr(0x01, op1.op(), op2);
    }
}

impl Add<Mem64, Reg64> for Asm {
    open spec fn add_req(self, op1: Mem64, op2: Reg64) -> bool {
        mr_ok(op1.sop(), op2)
    }

    open spec fn add_ens(self, post: Asm, op1: Mem64, op2: Reg64) -> bool {
        post@ == self@ + mr_bytes(seq![0x01u8], op1.sop(), op2)
    }

    fn add(&mut self, op1: Mem64, op2: Reg64) {
        self.encode_mr(0x01, op1.op(), op2);
    }
}

impl Add<Reg64, Mem64> for Asm {
    open spec fn add_req(self, op1: Reg64, op2: Mem64) -> bool {
        mr_ok(op2.sop(), op1)
    }

    open spec fn add_ens(self, post: Asm, op1: Reg64, op2: Mem64) -> bool {
        post@ == self@ + mr_bytes(seq![0x03u8], op2.sop(), op1)
    }

    fn add(&mut self, op1: Reg64, op2: Mem64) {
        self.encode_rm(0x03, op1, op2.op());
    }
}

impl Add<Mem8, Imm8> for Asm {
    open spec fn add_req(self, op1: Mem8, op2: Imm8) -> bool {
        op1.sop().swf()
    }

    open spec fn add_ens(self, post: Asm, op1: Mem8, op2: Imm8) -> bool {
        post@ == self@ + mi_bytes(0x80, 0, op1.sop(), op1.s16(), op1.s64(), op2.sbytes())
    }

    fn add(&mut self, op1: Mem8, op2: Imm8) {
        self.encode_mi(0x80, 0, op1, op2);
    }
}

impl Add<Mem16, Imm8> for Asm {
    open spec fn add_req(self, op1: Mem16, op2: Imm8) -> bool {
        op1.sop().swf()
    }

    open spec fn add_ens(self, post: Asm, op1: Mem16, op2: Imm8) -> bool {
        post@ == self@ + mi_bytes(0x83, 0, op1.sop(), op1.s16(), op1.s64(), op2.sbytes())
    }

    fn add(&mut self, op1: Mem16, op2: Imm8) {
        self.encode_mi(0x83, 0, op1, op2);
    }
}

impl Add<Mem32, Imm8> for Asm {
    open spec fn add_req(self, op1: Mem32, op2: Imm8) -> bool {
        op1.sop().swf()
    }

    open spec fn add_ens(self, post: Asm, op1: Mem32, op2: Imm8) -> bool {
        post@ == self@ + mi_bytes(0x83, 0, op1.sop(), op1.s16(), op1.s64(), op2.sbytes())
    }

    fn add(&mut self, op1: Mem32, op2: Imm8) {
        self.encode_mi(0x83, 0, op1, op2);
    }
}

impl Add<Mem64, Imm8> for Asm {
    open spec fn add_req(self, op1: Mem64, op2: Imm8) -> bool {
        op1.sop().swf()
    }

    open spec fn add_ens(self, post: Asm, op1: Mem64, op2: Imm8) -> bool {
        post@ == self@ + mi_bytes(0x83, 0, op1.sop(), op1.s16(), op1.s64(), op2.sbytes())
    }

    fn add(&mut self, op1: Mem64, op2: Imm8) {
        self.encode_mi(0x83, 0, op1, op2);
    }
}

impl Add<Mem16, Imm16> for Asm {
    open spec fn add_req(self, op1: Mem16, op2: Imm16) -> bool {
        op1.sop().swf()
    }

    open spec fn add_ens(self, post: Asm, op1: Mem16, op2: Imm16) -> bool {
        post@ == self@ + mi_bytes(0x81, 0, op1.sop(), op1.s16(), op1.s64(), op2.sbytes())
    }

    fn add(&mut self, op1: Mem16, op2: Imm16) {
        self.encode_mi(0x81, 0, op1, op2);
    }
}

} // verus!
