use super::Dec;
use crate::encoder::m_bytes;
use crate::encoder::r_bytes;
use crate::Mem;
use crate::Mem16;
use crate::Mem32;
use crate::Mem64;
use crate::Mem8;
use crate::Reg32;
use crate::Reg64;
use crate::Asm;
use vstd::prelude::*;

verus! {

impl Dec<Reg64> for Asm {
    open spec fn dec_req(self, op1: Reg64) -> bool {
        true
    }

    open spec fn dec_ens(self, post: Asm, op1: Reg64) -> bool {
        post@ == self@ + r_bytes(0xff, 1, op1)
    }

    fn dec(&mut self, op1: Reg64) {
        self.encode_r(0xff, 1, op1);
    }
}

impl Dec<Reg32> for Asm {
    open spec fn dec_req(self, op1: Reg32) -> bool {
        true
    }

    open spec fn dec_ens(self, post: Asm, op1: Reg32) -> bool {
        post@ == self@ + r_bytes(0xff, 1, op1)
    }

    fn dec(&mut self, op1: Reg32) {
        self.encode_r(0xff, 1, op1);
    }
}

impl Dec<Mem8> for Asm {
    open spec fn dec_req(self, op1: Mem8) -> bool {
        op1.sop().swf()
    }

    open spec fn dec_ens(self, post: Asm, op1: Mem8) -> bool {
        post@ == self@ + m_bytes(0xfe, 1, op1.sop(), op1.s16(), op1.s64())
    }

    fn dec(&mut self, op1: Mem8) {
        self.encode_m(0xfe, 1, op1);
    }
}

impl Dec<Mem16> for Asm {
    open spec fn dec_req(self, op1: Mem16) -> bool {
        op1.sop().swf()
    }

    open spec fn dec_ens(self, post: Asm, op1: Mem16) -> bool {
        post@ == self@ + m_bytes(0xff, 1, op1.sop(), op1.s16(), op1.s64())
    }

    fn dec(&mut self, op1: Mem16) {
        self.encode_m(0xff, 1, op1);
    }
}

impl Dec<Mem32> for Asm {
    open spec fn dec_req(self, op1: Mem32) -> bool {
        op1.sop().swf()
    }

    open spec fn dec_ens(self, post: Asm, op1: Mem32) -> bool {
        post@ == self@ + m_bytes(0xff, 1, op1.sop(), op1.s16(), op1.s64())
    }

    fn dec(&mut self, op1: Mem32) {
        self.encode_m(0xff, 1, op1);
    }
}

impl Dec<Mem64> for Asm {
    open spec fn dec_req(self, op1: Mem64) -> bool {
        op1.sop().swf()
    }

    open spec fn dec_ens(self, post: Asm, op1: Mem64) -> bool {
        post@ == self@ + m_bytes(0xff, 1, op1.sop(), op1.s16(), op1.s64())
    }

    fn dec(&mut self, op1: Mem64) {
        self.encode_m(0xff, 1, op1);
    }
}

} // verus!
