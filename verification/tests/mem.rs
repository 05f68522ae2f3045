use juicebox_asm::insn::Mov;
use juicebox_asm::Asm;
use juicebox_asm::Mem64;
use juicebox_asm::Reg64::r9;
use juicebox_asm::Reg64::rax;
use juicebox_asm::Reg64::rbp;
use juicebox_asm::Reg64::rcx;
use juicebox_asm::Reg64::rdx;

#[test]
fn mov_indirect_disp() {
    {
        // Displacements are always emitted as four bytes (`mod=10`).
        let mut enc = Asm::new();
        enc.mov(Mem64::indirect_disp(rax, 0x10), rcx);
        assert_eq!(enc.into_code(), [0x48, 0x89, 0x88, 0x10, 0x00, 0x00, 0x00]);
    }
    {
        // A negative displacement is emitted as its two's complement.
        let mut enc = Asm::new();
        enc.mov(Mem64::indirect_disp(rbp, -8), rcx);
        assert_eq!(enc.into_code(), [0x48, 0x89, 0x8d, 0xf8, 0xff, 0xff, 0xff]);
    }
}

#[test]
fn mov_base_index() {
    {
        let mut enc = Asm::new();
        enc.mov(Mem64::indirect_base_index(rax, rcx), rdx);
        assert_eq!(enc.into_code(), [0x48, 0x89, 0x14, 0x08]);
    }
    {
        // An extended index register sets `REX.X`.
        let mut enc = Asm::new();
        enc.mov(Mem64::indirect_base_index(rax, r9), rdx);
        assert_eq!(enc.into_code(), [0x4a, 0x89, 0x14, 0x08]);
    }
}
