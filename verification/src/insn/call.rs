use super::Call;
use crate::encoder::r_bytes;
use crate::Reg64;
use crate::Asm;
use vstd::prelude::*;

verus! {

impl Call<Reg64> for Asm {
    open spec fn call_req(self, op1: Reg64) -> bool {
        true
    }

    open spec fn call_ens(self, post: Asm, op1: Reg64) -> bool {
        post@ == self@ + r_bytes(0xff, 2, op1)
    }

    fn call(&mut self, op1: Reg64) {
        self.encode_r(0xff, 2, op1);
    }
}

} // verus!
