use crate::Asm;
use vstd::prelude::*;

verus! {

impl Asm {
    /// Emit a `nop` instruction (`0x90`).
    pub fn nop(&mut self)
        ensures
            final(self)@ == old(self)@ + seq![0x90u8],
    {
        self.emit_byte(0x90);
    }
}

} // verus!
