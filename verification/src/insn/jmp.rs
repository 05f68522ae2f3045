use super::jmp_label_bytes_ens;
use super::jmp_label_req;
use super::Jmp;
use crate::label::Label;
use crate::Asm;
use vstd::prelude::*;

verus! {

impl Asm {
    /// Emit an unconditional jump (`0xe9`, `rel32`) towards `label`.
    ///
    /// An unbound label gets a four-byte placeholder and a recorded
    /// fix-up; a bound label is resolved immediately.
    pub fn jmp(&mut self, label: &mut Label)
        requires
            jmp_label_req(old(self)@, *old(label), 1),
        ensures
            final(label).sloc() == old(label).sloc(),
            final(label).swf(final(self)@.len() as int),
            jmp_label_bytes_ens(old(self)@, final(self)@, *old(label), seq![0xe9u8]),
            old(label).sloc() is None ==> final(label).soffs() == old(label).soffs().push(
                (old(self)@.len() + 1) as usize,
            ),
            old(label).sloc() is Some ==> final(label).soffs() == Seq::<usize>::empty(),
    {
        let opc: [u8; 1] = [0xe9];
        proof {
            assert(opc@ =~= seq![0xe9u8]);
        }
        self.encode_jmp_label(opc.as_slice(), label);
    }
}

impl Jmp<&mut Label> for Asm {
    open spec fn jmp_req(self, op1: &mut Label) -> bool {
        jmp_label_req(self@, mut_ref_current(op1), 1)
    }

    open spec fn jmp_ens(self, post: Asm, op1: &mut Label) -> bool {
        jmp_label_bytes_ens(self@, post@, mut_ref_current(op1), seq![0xe9u8])
    }

    fn jmp(&mut self, op1: &mut Label) {
        let opc: [u8; 1] = [0xe9];
        proof {
            assert(opc@ =~= seq![0xe9u8]);
        }
        self.encode_jmp_label(opc.as_slice(), op1);
    }
}

} // verus!
