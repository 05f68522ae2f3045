use juicebox_asm::insn::Add;
use juicebox_asm::insn::Dec;
use juicebox_asm::insn::Mov;
use juicebox_asm::insn::Test;
use juicebox_asm::Asm;
use juicebox_asm::Imm64;
use juicebox_asm::Label;
use juicebox_asm::Reg64::rax;
use juicebox_asm::Reg64::rbx;
use juicebox_asm::Reg64::rcx;
use juicebox_asm::Reg64::rdi;

#[test]
fn fib_loop_emission() {
    // The fibonacci-by-loop routine (rdi = n, rax = sum, rcx/rbx as
    // scratch) with a forward jump to the end label and a backward
    // jump to the loop head, byte for byte.
    let mut enc = Asm::new();
    let mut lp = Label::new();
    let mut end = Label::new();

    enc.mov(rcx, Imm64::from(0));
    enc.mov(rbx, Imm64::from(1));
    enc.mov(rax, Imm64::from(0));

    enc.bind(&mut lp);
    enc.test(rdi, rdi);
    enc.jz(&mut end);
    enc.mov(rcx, rax);
    enc.add(rax, rbx);
    enc.mov(rbx, rcx);
    enc.dec(rdi);
    enc.jmp(&mut lp);
    enc.bind(&mut end);
    enc.ret();

    let code = enc.into_code();
    let expected: Vec<u8> = vec![
        // mov rcx, 0
        0x48, 0xb9, 0x00, 0x00, 0x00, 0x00, 0x00, 0x00, 0x00, 0x00,
        // mov rbx, 1
        0x48, 0xbb, 0x01, 0x00, 0x00, 0x00, 0x00, 0x00, 0x00, 0x00,
        // mov rax, 0
        0x48, 0xb8, 0x00, 0x00, 0x00, 0x00, 0x00, 0x00, 0x00, 0x00,
        // lp: test rdi, rdi
        0x48, 0x85, 0xff,
        // jz end (end = 56, placeholder at 35: rel32 = 17)
        0x0f, 0x84, 0x11, 0x00, 0x00, 0x00,
        // mov rcx, rax
        0x48, 0x89, 0xc1,
        // add rax, rbx
        0x48, 0x01, 0xd8,
        // mov rbx, rcx
        0x48, 0x89, 0xcb,
        // dec rdi
        0x48, 0xff, 0xcf,
        // jmp lp (lp = 30, placeholder at 52: rel32 = -26)
        0xe9, 0xe6, 0xff, 0xff, 0xff,
        // end: ret
        0xc3,
    ];
    assert_eq!(code, expected);
}
