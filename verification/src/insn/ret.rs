use crate::Asm;
use vstd::prelude::*;

verus! {

impl Asm {
    /// Emit a `ret` instruction (`0xc3`).
    pub fn ret(&mut self)
        ensures
            final(self)@ == old(self)@ + seq![0xc3u8],
    {
        self.emit_byte(0xc3);
    }
}

} // verus!
