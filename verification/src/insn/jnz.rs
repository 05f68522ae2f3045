use super::jmp_label_bytes_ens;
use super::jmp_label_req;
use super::Jnz;
use crate::label::Label;
use crate::Asm;
use vstd::prelude::*;

verus! {

impl Asm {
    /// Emit a conditional jump (`0x0f`, ``0x85`, `rel32`,
    /// taken if `ZF = 0`) towards `label`.
    ///
    /// An unbound label gets a four-byte placeholder and a recorded
    /// fix-up; a bound label is resolved immediately.
    pub fn jnz(&mut self, label: &mut Label)
        requires
            jmp_label_req(old(self)@, *old(label), 2),
        ensures
            final(label).sloc() == old(label).sloc(),
            final(label).swf(final(self)@.len() as int),
            jmp_label_bytes_ens(old(self)@, final(self)@, *old(label), seq![0x0fu8, 0x85u8]),
            old(label).sloc() is None ==> final(label).soffs() == old(label).soffs().push(
                (old(self)@.len() + 2) as usize,
            ),
            old(label).sloc() is Some ==> final(label).soffs() == Seq::<usize>::empty(),
    {
        let opc: [u8; 2] = [0x0f, 0x85];
        proof {
            assert(opc@ =~= seq![0x0fu8, 0x85u8]);
        }
        self.encode_jmp_label(opc.as_slice(), label);
    }
}

impl Jnz<&mut Label> for Asm {
    open spec fn jnz_req(self, op1: &mut Label) -> bool {
        jmp_label_req(self@, mut_ref_current(op1), 2)
    }

    open spec fn jnz_ens(self, post: Asm, op1: &mut Label) -> bool {
        jmp_label_bytes_ens(self@, post@, mut_ref_current(op1), seq![0x0fu8, 0x85u8])
    }

    fn jnz(&mut self, op1: &mut Label) {
        let opc: [u8; 2] = [0x0f, 0x85];
        proof {
            assert(opc@ =~= seq![0x0fu8, 0x85u8]);
        }
        self.encode_jmp_label(opc.as_slice(), op1);
    }
}

} // verus!
