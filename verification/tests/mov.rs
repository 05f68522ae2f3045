use juicebox_asm::insn::Mov;
use juicebox_asm::Asm;
use juicebox_asm::Imm16;
use juicebox_asm::Imm32;
use juicebox_asm::Imm64;
use juicebox_asm::Imm8;
use juicebox_asm::Mem16;
use juicebox_asm::Mem32;
use juicebox_asm::Mem64;
use juicebox_asm::Mem8;
use juicebox_asm::Reg16::cx;
use juicebox_asm::Reg16::di;
use juicebox_asm::Reg16::dx;
use juicebox_asm::Reg16::r11w;
use juicebox_asm::Reg16::r12w;
use juicebox_asm::Reg16::r15w;
use juicebox_asm::Reg32::ecx;
use juicebox_asm::Reg32::edi;
use juicebox_asm::Reg32::edx;
use juicebox_asm::Reg32::r11d;
use juicebox_asm::Reg32::r12d;
use juicebox_asm::Reg32::r15d;
use juicebox_asm::Reg64::r11;
use juicebox_asm::Reg64::r12;
use juicebox_asm::Reg64::r14;
use juicebox_asm::Reg64::r15;
use juicebox_asm::Reg64::rcx;
use juicebox_asm::Reg64::rdi;
use juicebox_asm::Reg64::rdx;
use juicebox_asm::Reg64::rsi;
use juicebox_asm::Reg8::ch;
use juicebox_asm::Reg8::cl;
use juicebox_asm::Reg8::dh;
use juicebox_asm::Reg8::dil;
use juicebox_asm::Reg8::dl;
use juicebox_asm::Reg8::r11l;
use juicebox_asm::Reg8::r12l;
use juicebox_asm::Reg8::r15l;
use juicebox_asm::Reg8::sil;

#[test]
fn mov_rr() {
    {
        let mut enc = Asm::new();
        enc.mov(rcx, rdx);
        assert_eq!(enc.into_code(), [0x48, 0x89, 0xd1]);
    }
    {
        let mut enc = Asm::new();
        enc.mov(r11, rdx);
        assert_eq!(enc.into_code(), [0x49, 0x89, 0xd3]);
    }
    {
        let mut enc = Asm::new();
        enc.mov(rdi, r12);
        assert_eq!(enc.into_code(), [0x4c, 0x89, 0xe7]);
    }
    {
        let mut enc = Asm::new();
        enc.mov(r15, r12);
        assert_eq!(enc.into_code(), [0x4d, 0x89, 0xe7]);
    }
    {
        let mut enc = Asm::new();
        enc.mov(ecx, edx);
        assert_eq!(enc.into_code(), [0x89, 0xd1]);
    }
    {
        let mut enc = Asm::new();
        enc.mov(r11d, edx);
        assert_eq!(enc.into_code(), [0x41, 0x89, 0xd3]);
    }
    {
        let mut enc = Asm::new();
        enc.mov(edi, r12d);
        assert_eq!(enc.into_code(), [0x44, 0x89, 0xe7]);
    }
    {
        let mut enc = Asm::new();
        enc.mov(r15d, r12d);
        assert_eq!(enc.into_code(), [0x45, 0x89, 0xe7]);
    }
    {
        let mut enc = Asm::new();
        enc.mov(cx, dx);
        assert_eq!(enc.into_code(), [0x66, 0x89, 0xd1]);
    }
    {
        let mut enc = Asm::new();
        enc.mov(r11w, dx);
        assert_eq!(enc.into_code(), [0x66, 0x41, 0x89, 0xd3]);
    }
    {
        let mut enc = Asm::new();
        enc.mov(di, r12w);
        assert_eq!(enc.into_code(), [0x66, 0x44, 0x89, 0xe7]);
    }
    {
        let mut enc = Asm::new();
        enc.mov(r15w, r12w);
        assert_eq!(enc.into_code(), [0x66, 0x45, 0x89, 0xe7]);
    }
    {
        let mut enc = Asm::new();
        enc.mov(cl, dl);
        assert_eq!(enc.into_code(), [0x88, 0xd1]);
    }
    {
        let mut enc = Asm::new();
        enc.mov(ch, dh);
        assert_eq!(enc.into_code(), [0x88, 0xf5]);
    }
    {
        let mut enc = Asm::new();
        enc.mov(dil, sil);
        assert_eq!(enc.into_code(), [0x40, 0x88, 0xf7]);
    }
    {
        let mut enc = Asm::new();
        enc.mov(r11l, dl);
        assert_eq!(enc.into_code(), [0x41, 0x88, 0xd3]);
    }
    {
        let mut enc = Asm::new();
        enc.mov(dil, r12l);
        assert_eq!(enc.into_code(), [0x44, 0x88, 0xe7]);
    }
    {
        let mut enc = Asm::new();
        enc.mov(r15l, r12l);
        assert_eq!(enc.into_code(), [0x45, 0x88, 0xe7]);
    }
}

#[test]
fn mov_ri() {
    {
        let mut enc = Asm::new();
        enc.mov(rdi, Imm64::from(0xaabb));
        assert_eq!(enc.into_code(), [0x48, 0xbf, 0xbb, 0xaa, 0x00, 0x00, 0x00, 0x00, 0x00, 0x00]);
    }
    {
        let mut enc = Asm::new();
        enc.mov(r12, Imm64::from(0xaabb));
        assert_eq!(enc.into_code(), [0x49, 0xbc, 0xbb, 0xaa, 0x00, 0x00, 0x00, 0x00, 0x00, 0x00]);
    }
    {
        let mut enc = Asm::new();
        enc.mov(edi, Imm32::from(0xaabb));
        assert_eq!(enc.into_code(), [0xbf, 0xbb, 0xaa, 0x00, 0x00]);
    }
    {
        let mut enc = Asm::new();
        enc.mov(r12d, Imm32::from(0xaabb));
        assert_eq!(enc.into_code(), [0x41, 0xbc, 0xbb, 0xaa, 0x00, 0x00]);
    }
    {
        let mut enc = Asm::new();
        enc.mov(di, Imm16::from(0xaabbu16));
        assert_eq!(enc.into_code(), [0x66, 0xbf, 0xbb, 0xaa]);
    }
    {
        let mut enc = Asm::new();
        enc.mov(r12w, Imm16::from(0xaabbu16));
        assert_eq!(enc.into_code(), [0x66, 0x41, 0xbc, 0xbb, 0xaa]);
    }
    {
        let mut enc = Asm::new();
        enc.mov(dil, Imm8::from(0xaau8));
        assert_eq!(enc.into_code(), [0x40, 0xb7, 0xaa]);
    }
    {
        let mut enc = Asm::new();
        enc.mov(r12l, Imm8::from(0xaau8));
        assert_eq!(enc.into_code(), [0x41, 0xb4, 0xaa]);
    }
}

#[test]
fn mov_rm() {
    {
        let mut enc = Asm::new();
        enc.mov(rcx, Mem64::indirect(rdx));
        assert_eq!(enc.into_code(), [0x48, 0x8b, 0x0a]);
    }
    {
        let mut enc = Asm::new();
        enc.mov(r11, Mem64::indirect(rsi));
        assert_eq!(enc.into_code(), [0x4c, 0x8b, 0x1e]);
    }
    {
        let mut enc = Asm::new();
        enc.mov(rdi, Mem64::indirect(r14));
        assert_eq!(enc.into_code(), [0x49, 0x8b, 0x3e]);
    }
    {
        let mut enc = Asm::new();
        enc.mov(r15, Mem64::indirect(r14));
        assert_eq!(enc.into_code(), [0x4d, 0x8b, 0x3e]);
    }
    {
        let mut enc = Asm::new();
        enc.mov(ecx, Mem32::indirect(rdx));
        assert_eq!(enc.into_code(), [0x8b, 0x0a]);
    }
    {
        let mut enc = Asm::new();
        enc.mov(r11d, Mem32::indirect(rsi));
        assert_eq!(enc.into_code(), [0x44, 0x8b, 0x1e]);
    }
    {
        let mut enc = Asm::new();
        enc.mov(edi, Mem32::indirect(r14));
        assert_eq!(enc.into_code(), [0x41, 0x8b, 0x3e]);
    }
    {
        let mut enc = Asm::new();
        enc.mov(r15d, Mem32::indirect(r14));
        assert_eq!(enc.into_code(), [0x45, 0x8b, 0x3e]);
    }
    {
        let mut enc = Asm::new();
        enc.mov(cx, Mem16::indirect(rdx));
        assert_eq!(enc.into_code(), [0x66, 0x8b, 0x0a]);
    }
    {
        let mut enc = Asm::new();
        enc.mov(r11w, Mem16::indirect(rsi));
        assert_eq!(enc.into_code(), [0x66, 0x44, 0x8b, 0x1e]);
    }
    {
        let mut enc = Asm::new();
        enc.mov(di, Mem16::indirect(r14));
        assert_eq!(enc.into_code(), [0x66, 0x41, 0x8b, 0x3e]);
    }
    {
        let mut enc = Asm::new();
        enc.mov(r15w, Mem16::indirect(r14));
        assert_eq!(enc.into_code(), [0x66, 0x45, 0x8b, 0x3e]);
    }
    {
        let mut enc = Asm::new();
        enc.mov(cl, Mem8::indirect(rdx));
        assert_eq!(enc.into_code(), [0x8a, 0x0a]);
    }
    {
        let mut enc = Asm::new();
        enc.mov(r11l, Mem8::indirect(rsi));
        assert_eq!(enc.into_code(), [0x44, 0x8a, 0x1e]);
    }
    {
        let mut enc = Asm::new();
        enc.mov(dil, Mem8::indirect(r14));
        assert_eq!(enc.into_code(), [0x41, 0x8a, 0x3e]);
    }
    {
        let mut enc = Asm::new();
        enc.mov(r15l, Mem8::indirect(r14));
        assert_eq!(enc.into_code(), [0x45, 0x8a, 0x3e]);
    }
}

#[test]
fn mov_mr() {
    {
        let mut enc = Asm::new();
        enc.mov(Mem64::indirect(rdx), rcx);
        assert_eq!(enc.into_code(), [0x48, 0x89, 0x0a]);
    }
    {
        let mut enc = Asm::new();
        enc.mov(Mem64::indirect(rsi), r11);
        assert_eq!(enc.into_code(), [0x4c, 0x89, 0x1e]);
    }
    {
        let mut enc = Asm::new();
        enc.mov(Mem64::indirect(r14), rdi);
        assert_eq!(enc.into_code(), [0x49, 0x89, 0x3e]);
    }
    {
        let mut enc = Asm::new();
        enc.mov(Mem64::indirect(r14), r15);
        assert_eq!(enc.into_code(), [0x4d, 0x89, 0x3e]);
    }
    {
        let mut enc = Asm::new();
        enc.mov(Mem32::indirect(rdx), ecx);
        assert_eq!(enc.into_code(), [0x89, 0x0a]);
    }
    {
        let mut enc = Asm::new();
        enc.mov(Mem32::indirect(rsi), r11d);
        assert_eq!(enc.into_code(), [0x44, 0x89, 0x1e]);
    }
    {
        let mut enc = Asm::new();
        enc.mov(Mem32::indirect(r14), edi);
        assert_eq!(enc.into_code(), [0x41, 0x89, 0x3e]);
    }
    {
        let mut enc = Asm::new();
        enc.mov(Mem32::indirect(r14), r15d);
        assert_eq!(enc.into_code(), [0x45, 0x89, 0x3e]);
    }
    {
        let mut enc = Asm::new();
        enc.mov(Mem16::indirect(rdx), cx);
        assert_eq!(enc.into_code(), [0x66, 0x89, 0x0a]);
    }
    {
        let mut enc = Asm::new();
        enc.mov(Mem16::indirect(rsi), r11w);
        assert_eq!(enc.into_code(), [0x66, 0x44, 0x89, 0x1e]);
    }
    {
        let mut enc = Asm::new();
        enc.mov(Mem16::indirect(r14), di);
        assert_eq!(enc.into_code(), [0x66, 0x41, 0x89, 0x3e]);
    }
    {
        let mut enc = Asm::new();
        enc.mov(Mem16::indirect(r14), r15w);
        assert_eq!(enc.into_code(), [0x66, 0x45, 0x89, 0x3e]);
    }
    {
        let mut enc = Asm::new();
        enc.mov(Mem8::indirect(rdx), cl);
        assert_eq!(enc.into_code(), [0x88, 0x0a]);
    }
    {
        let mut enc = Asm::new();
        enc.mov(Mem8::indirect(rsi), r11l);
        assert_eq!(enc.into_code(), [0x44, 0x88, 0x1e]);
    }
    {
        let mut enc = Asm::new();
        enc.mov(Mem8::indirect(r14), dil);
        assert_eq!(enc.into_code(), [0x41, 0x88, 0x3e]);
    }
    {
        let mut enc = Asm::new();
        enc.mov(Mem8::indirect(r14), r15l);
        assert_eq!(enc.into_code(), [0x45, 0x88, 0x3e]);
    }
}
