use juicebox_asm::insn::Add;
use juicebox_asm::insn::Call;
use juicebox_asm::insn::Cmovnz;
use juicebox_asm::insn::Cmovz;
use juicebox_asm::insn::Cmp;
use juicebox_asm::insn::Dec;
use juicebox_asm::insn::Inc;
use juicebox_asm::insn::Pop;
use juicebox_asm::insn::Push;
use juicebox_asm::insn::Sub;
use juicebox_asm::insn::Test;
use juicebox_asm::insn::Xor;
use juicebox_asm::Asm;
use juicebox_asm::Imm16;
use juicebox_asm::Imm8;
use juicebox_asm::Mem16;
use juicebox_asm::Mem32;
use juicebox_asm::Mem64;
use juicebox_asm::Mem8;
use juicebox_asm::Reg16::cx;
use juicebox_asm::Reg32::ecx;
use juicebox_asm::Reg32::edx;
use juicebox_asm::Reg64::r8;
use juicebox_asm::Reg64::r9;
use juicebox_asm::Reg64::rax;
use juicebox_asm::Reg64::rcx;
use juicebox_asm::Reg64::rdi;
use juicebox_asm::Reg64::rdx;

#[test]
fn add_insn() {
    {
        let mut enc = Asm::new();
        enc.add(ecx, edx);
        assert_eq!(enc.into_code(), [0x01, 0xd1]);
    }
    {
        let mut enc = Asm::new();
        enc.add(rcx, rdx);
        assert_eq!(enc.into_code(), [0x48, 0x01, 0xd1]);
    }
    {
        let mut enc = Asm::new();
        enc.add(r8, r9);
        assert_eq!(enc.into_code(), [0x4d, 0x01, 0xc8]);
    }
    {
        let mut enc = Asm::new();
        enc.add(Mem16::indirect(rax), cx);
        assert_eq!(enc.into_code(), [0x66, 0x01, 0x08]);
    }
    {
        let mut enc = Asm::new();
        enc.add(Mem64::indirect(rax), rcx);
        assert_eq!(enc.into_code(), [0x48, 0x01, 0x08]);
    }
    {
        let mut enc = Asm::new();
        enc.add(rcx, Mem64::indirect(rdx));
        assert_eq!(enc.into_code(), [0x48, 0x03, 0x0a]);
    }
}

#[test]
fn add_insn_imm() {
    {
        let mut enc = Asm::new();
        enc.add(Mem8::indirect(rax), Imm8::from(5u8));
        assert_eq!(enc.into_code(), [0x80, 0x00, 0x05]);
    }
    {
        let mut enc = Asm::new();
        enc.add(Mem16::indirect(rax), Imm8::from(5u8));
        assert_eq!(enc.into_code(), [0x66, 0x83, 0x00, 0x05]);
    }
    {
        let mut enc = Asm::new();
        enc.add(Mem32::indirect(rax), Imm8::from(5u8));
        assert_eq!(enc.into_code(), [0x83, 0x00, 0x05]);
    }
    {
        let mut enc = Asm::new();
        enc.add(Mem64::indirect(rax), Imm8::from(5u8));
        assert_eq!(enc.into_code(), [0x48, 0x83, 0x00, 0x05]);
    }
    {
        let mut enc = Asm::new();
        enc.add(Mem16::indirect(rax), Imm16::from(0x1234u16));
        assert_eq!(enc.into_code(), [0x66, 0x81, 0x00, 0x34, 0x12]);
    }
}

#[test]
fn sub_insn() {
    {
        let mut enc = Asm::new();
        enc.sub(rcx, rdx);
        assert_eq!(enc.into_code(), [0x48, 0x29, 0xd1]);
    }
    {
        let mut enc = Asm::new();
        enc.sub(Mem8::indirect(rdx), Imm8::from(1u8));
        assert_eq!(enc.into_code(), [0x80, 0x2a, 0x01]);
    }
}

#[test]
fn cmp_insn() {
    {
        let mut enc = Asm::new();
        enc.cmp(rcx, rdx);
        assert_eq!(enc.into_code(), [0x48, 0x3b, 0xd1]);
    }
    {
        let mut enc = Asm::new();
        enc.cmp(Mem8::indirect(rdx), Imm8::from(42u8));
        assert_eq!(enc.into_code(), [0x80, 0x3a, 0x2a]);
    }
    {
        let mut enc = Asm::new();
        enc.cmp(Mem16::indirect(rdx), Imm16::from(0x1234u16));
        assert_eq!(enc.into_code(), [0x66, 0x81, 0x3a, 0x34, 0x12]);
    }
}

#[test]
fn test_insn() {
    {
        let mut enc = Asm::new();
        enc.test(rdi, rdi);
        assert_eq!(enc.into_code(), [0x48, 0x85, 0xff]);
    }
    {
        let mut enc = Asm::new();
        enc.test(ecx, edx);
        assert_eq!(enc.into_code(), [0x85, 0xd1]);
    }
    {
        let mut enc = Asm::new();
        enc.test(Mem16::indirect(rax), Imm16::from(7u16));
        assert_eq!(enc.into_code(), [0x66, 0xf7, 0x00, 0x07, 0x00]);
    }
}

#[test]
fn xor_insn() {
    let mut enc = Asm::new();
    enc.xor(rax, rax);
    assert_eq!(enc.into_code(), [0x48, 0x31, 0xc0]);
}

#[test]
fn inc_insn() {
    {
        let mut enc = Asm::new();
        enc.inc(rax);
        assert_eq!(enc.into_code(), [0x48, 0xff, 0xc0]);
    }
    {
        let mut enc = Asm::new();
        enc.inc(ecx);
        assert_eq!(enc.into_code(), [0xff, 0xc1]);
    }
    {
        let mut enc = Asm::new();
        enc.inc(r8);
        assert_eq!(enc.into_code(), [0x49, 0xff, 0xc0]);
    }
    {
        let mut enc = Asm::new();
        enc.inc(Mem8::indirect(rax));
        assert_eq!(enc.into_code(), [0xfe, 0x00]);
    }
    {
        let mut enc = Asm::new();
        enc.inc(Mem16::indirect(rax));
        assert_eq!(enc.into_code(), [0x66, 0xff, 0x00]);
    }
    {
        let mut enc = Asm::new();
        enc.inc(Mem32::indirect(rax));
        assert_eq!(enc.into_code(), [0xff, 0x00]);
    }
    {
        let mut enc = Asm::new();
        enc.inc(Mem64::indirect(rax));
        assert_eq!(enc.into_code(), [0x48, 0xff, 0x00]);
    }
}

#[test]
fn dec_insn() {
    {
        let mut enc = Asm::new();
        enc.dec(rdi);
        assert_eq!(enc.into_code(), [0x48, 0xff, 0xcf]);
    }
    {
        let mut enc = Asm::new();
        enc.dec(Mem8::indirect(rdx));
        assert_eq!(enc.into_code(), [0xfe, 0x0a]);
    }
    {
        let mut enc = Asm::new();
        enc.dec(Mem64::indirect(rdx));
        assert_eq!(enc.into_code(), [0x48, 0xff, 0x0a]);
    }
}

#[test]
fn push_pop_insn() {
    {
        let mut enc = Asm::new();
        enc.push(rax);
        assert_eq!(enc.into_code(), [0x48, 0xff, 0xf0]);
    }
    {
        let mut enc = Asm::new();
        enc.push(cx);
        assert_eq!(enc.into_code(), [0x66, 0xff, 0xf1]);
    }
    {
        let mut enc = Asm::new();
        enc.pop(rax);
        assert_eq!(enc.into_code(), [0x48, 0x8f, 0xc0]);
    }
    {
        let mut enc = Asm::new();
        enc.pop(cx);
        assert_eq!(enc.into_code(), [0x66, 0x8f, 0xc1]);
    }
}

#[test]
fn call_ret_nop_insn() {
    {
        let mut enc = Asm::new();
        enc.call(rax);
        assert_eq!(enc.into_code(), [0x48, 0xff, 0xd0]);
    }
    {
        let mut enc = Asm::new();
        enc.ret();
        assert_eq!(enc.into_code(), [0xc3]);
    }
    {
        let mut enc = Asm::new();
        enc.nop();
        assert_eq!(enc.into_code(), [0x90]);
    }
}

#[test]
fn cmov_insn() {
    {
        let mut enc = Asm::new();
        enc.cmovz(rcx, rdx);
        assert_eq!(enc.into_code(), [0x48, 0x0f, 0x44, 0xca]);
    }
    {
        let mut enc = Asm::new();
        enc.cmovnz(rcx, rdx);
        assert_eq!(enc.into_code(), [0x48, 0x0f, 0x45, 0xca]);
    }
}
