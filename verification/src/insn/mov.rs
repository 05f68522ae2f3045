use super::Mov;
use crate::encoder::mi_bytes;
use crate::encoder::mr_bytes;
use crate::encoder::mr_ok;
use crate::encoder::oi_bytes;
use crate::encoder::rr_bytes;
use crate::encoder::rr_ok;
use crate::Imm;
use crate::Imm16;
use crate::Imm32;
use crate::Imm64;
use crate::Imm8;
use crate::Mem;
use crate::Mem16;
use crate::Mem32;
use crate::Mem64;
use crate::Mem8;
use crate::Reg16;
use crate::Reg32;
use crate::Reg64;
use crate::Reg8;
use crate::Asm;
use vstd::prelude::*;

verus! {

impl Mov<Reg64, Reg64> for Asm {
    open spec fn mov_req(self, op1: Reg64, op2: Reg64) -> bool {
        rr_ok(op1, op2)
    }

    open spec fn mov_ens(self, post: Asm, op1: Reg64, op2: Reg64) -> bool {
        post@ == self@ + rr_bytes(seq![0x89u8], op1, op2)
    }

    fn mov(&mut self, op1: Reg64, op2: Reg64) {
        let opc: [u8; 1] = [0x89];
        proof {
            assert(opc@ =~= seq![0x89u8]);
        }
        self.encode_rr(opc.as_slice(), op1, op2);
    }
}

impl Mov<Reg32, Reg32> for Asm {
    open spec fn mov_req(self, op1: Reg32, op2: Reg32) -> bool {
        rr_ok(op1, op2)
    }

    open spec fn mov_ens(self, post: Asm, op1: Reg32, op2: Reg32) -> bool {
        post@ == self@ + rr_bytes(seq![0x89u8], op1, op2)
    }

    fn mov(&mut self, op1: Reg32, op2: Reg32) {
        let opc: [u8; 1] = [0x89];
        proof {
            assert(opc@ =~= seq![0x89u8]);
        }
        self.encode_rr(opc.as_slice(), op1, op2);
    }
}

impl Mov<Reg16, Reg16> for Asm {
    open spec fn mov_req(self, op1: Reg16, op2: Reg16) -> bool {
        rr_ok(op1, op2)
    }

    open spec fn mov_ens(self, post: Asm, op1: Reg16, op2: Reg16) -> bool {
        post@ == self@ + rr_bytes(seq![0x89u8], op1, op2)
    }

    fn mov(&mut self, op1: Reg16, op2: Reg16) {
        let opc: [u8; 1] = [0x89];
        proof {
            assert(opc@ =~= seq![0x89u8]);
        }
        self.encode_rr(opc.as_slice(), op1, op2);
    }
}

impl Mov<Reg8, Reg8> for Asm {
    open spec fn mov_req(self, op1: Reg8, op2: Reg8) -> bool {
        rr_ok(op1, op2)
    }

    open spec fn mov_ens(self, post: Asm, op1: Reg8, op2: Reg8) -> bool {
        post@ == self@ + rr_bytes(seq![0x88u8], op1, op2)
    }

    fn mov(&mut self, op1: Reg8, op2: Reg8) {
        let opc: [u8; 1] = [0x88];
        proof {
            assert(opc@ =~= seq![0x88u8]);
        }
        self.encode_rr(opc.as_slice(), op1, op2);
    }
}

impl Mov<Mem64, Reg64> for Asm {
    open spec fn mov_req(self, op1: Mem64, op2: Reg64) -> bool {
        mr_ok(op1.sop(), op2)
    }

    open spec fn mov_ens(self, post: Asm, op1: Mem64, op2: Reg64) -> bool {
        post@ == self@ + mr_bytes(seq![0x89u8], op1.sop(), op2)
    }

    fn mov(&mut self, op1: Mem64, op2: Reg64) {
        self.encode_mr(0x89, op1.op(), op2);
    }
}

impl Mov<Mem32, Reg32> for Asm {
    open spec fn mov_req(self, op1: Mem32, op2: Reg32) -> bool {
        mr_ok(op1.sop(), op2)
    }

    open spec fn mov_ens(self, post: Asm, op1: Mem32, op2: Reg32) -> bool {
        post@ == self@ + mr_bytes(seq![0x89u8], op1.sop(), op2)
    }

    fn mov(&mut self, op1: Mem32, op2: Reg32) {
        self.encode_mr(0x89, op1.op(), op2);
    }
}

impl Mov<Mem16, Reg16> for Asm {
    open spec fn mov_req(self, op1: Mem16, op2: Reg16) -> bool {
        mr_ok(op1.sop(), op2)
    }

    open spec fn mov_ens(self, post: Asm, op1: Mem16, op2: Reg16) -> bool {
        post@ == self@ + mr_bytes(seq![0x89u8], op1.sop(), op2)
    }

    fn mov(&mut self, op1: Mem16, op2: Reg16) {
        self.encode_mr(0x89, op1.op(), op2);
    }
}

impl Mov<Mem8, Reg8> for Asm {
    open spec fn mov_req(self, op1: Mem8, op2: Reg8) -> bool {
        mr_ok(op1.sop(), op2)
    }

    open spec fn mov_ens(self, post: Asm, op1: Mem8, op2: Reg8) -> bool {
        post@ == self@ + mr_bytes(seq![0x88u8], op1.sop(), op2)
    }

    fn mov(&mut self, op1: Mem8, op2: Reg8) {
        self.encode_mr(0x88, op1.op(), op2);
    }
}

impl Mov<Reg64, Mem64> for Asm {
    open spec fn mov_req(self, op1: Reg64, op2: Mem64) -> bool {
        mr_ok(op2.sop(), op1)
    }

    open spec fn mov_ens(self, post: Asm, op1: Reg64, op2: Mem64) -> bool {
        post@ == self@ + mr_bytes(seq![0x8bu8], op2.sop(), op1)
    }

    fn mov(&mut self, op1: Reg64, op2: Mem64) {
        self.encode_rm(0x8b, op1, op2.op());
    }
}

impl Mov<Reg32, Mem32> for Asm {
    open spec fn mov_req(self, op1: Reg32, op2: Mem32) -> bool {
        mr_ok(op2.sop(), op1)
    }

    open spec fn mov_ens(self, post: Asm, op1: Reg32, op2: Mem32) -> bool {
        post@ == self@ + mr_bytes(seq![0x8bu8], op2.sop(), op1)
    }

    fn mov(&mut self, op1: Reg32, op2: Mem32) {
        self.encode_rm(0x8b, op1, op2.op());
    }
}

impl Mov<Reg16, Mem16> for Asm {
    open spec fn mov_req(self, op1: Reg16, op2: Mem16) -> bool {
        mr_ok(op2.sop(), op1)
    }

    open spec fn mov_ens(self, post: Asm, op1: Reg16, op2: Mem16) -> bool {
        post@ == self@ + mr_bytes(seq![0x8bu8], op2.sop(), op1)
    }

    fn mov(&mut self, op1: Reg16, op2: Mem16) {
        self.encode_rm(0x8b, op1, op2.op());
    }
}

impl Mov<Reg8, Mem8> for Asm {
    open spec fn mov_req(self, op1: Reg8, op2: Mem8) -> bool {
        mr_ok(op2.sop(), op1)
    }

    open spec fn mov_ens(self, post: Asm, op1: Reg8, op2: Mem8) -> bool {
        post@ == self@ + mr_bytes(seq![0x8au8], op2.sop(), op1)
    }

    fn mov(&mut self, op1: Reg8, op2: Mem8) {
        self.encode_rm(0x8a, op1, op2.op());
    }
}

impl Mov<Reg64, Imm64> for Asm {
    open spec fn mov_req(self, op1: Reg64, op2: Imm64) -> bool {
        true
    }

    open spec fn mov_ens(self, post: Asm, op1: Reg64, op2: Imm64) -> bool {
        post@ == self@ + oi_bytes(0xb8, op1, op2.sbytes())
    }

    fn mov(&mut self, op1: Reg64, op2: Imm64) {
        self.encode_oi(0xb8, op1, op2);
    }
}

impl Mov<Reg32, Imm32> for Asm {
    open spec fn mov_req(self, op1: Reg32, op2: Imm32) -> bool {
        true
    }

    open spec fn mov_ens(self, post: Asm, op1: Reg32, op2: Imm32) -> bool {
        post@ == self@ + oi_bytes(0xb8, op1, op2.sbytes())
    }

    fn mov(&mut self, op1: Reg32, op2: Imm32) {
        self.encode_oi(0xb8, op1, op2);
    }
}

impl Mov<Reg16, Imm16> for Asm {
    open spec fn mov_req(self, op1: Reg16, op2: Imm16) -> bool {
        true
    }

    open spec fn mov_ens(self, post: Asm, op1: Reg16, op2: Imm16) -> bool {
        post@ == self@ + oi_bytes(0xb8, op1, op2.sbytes())
    }

    fn mov(&mut self, op1: Reg16, op2: Imm16) {
        self.encode_oi(0xb8, op1, op2);
    }
}

impl Mov<Reg8, Imm8> for Asm {
    open spec fn mov_req(self, op1: Reg8, op2: Imm8) -> bool {
        true
    }

    open spec fn mov_ens(self, post: Asm, op1: Reg8, op2: Imm8) -> bool {
        post@ == self@ + oi_bytes(0xb0, op1, op2.sbytes())
    }

    fn mov(&mut self, op1: Reg8, op2: Imm8) {
        self.encode_oi(0xb0, op1, op2);
    }
}

impl Mov<Mem16, Imm16> for Asm {
    open spec fn mov_req(self, op1: Mem16, op2: Imm16) -> bool {
        op1.sop().swf()
    }

    open spec fn mov_ens(self, post: Asm, op1: Mem16, op2: Imm16) -> bool {
        post@ == self@ + mi_bytes(0xc7, 0, op1.sop(), op1.s16(), op1.s64(), op2.sbytes())
    }

    fn mov(&mut self, op1: Mem16, op2: Imm16) {
        self.encode_mi(0xc7, 0, op1, op2);
    }
}

} // verus!
