use juicebox_asm::insn::Mov;
use juicebox_asm::Asm;
use juicebox_asm::Imm16;
use juicebox_asm::Imm32;
use juicebox_asm::Imm64;
use juicebox_asm::Imm8;
use juicebox_asm::Reg16::di;
use juicebox_asm::Reg32::edi;
use juicebox_asm::Reg64::rdi;
use juicebox_asm::Reg8::dil;

// Round trips: the little-endian immediate bytes emitted by an `OI`
// move reconstruct the integer the immediate was built from.

#[test]
fn imm64_round_trip() {
    {
        let mut enc = Asm::new();
        enc.mov(rdi, Imm64::from(0xdead_beef_cafe_f00du64));
        let code = enc.into_code();
        assert_eq!(code[0], 0x48);
        assert_eq!(code[1], 0xbf);
        let bytes: [u8; 8] = code[2..10].try_into().unwrap();
        assert_eq!(u64::from_le_bytes(bytes), 0xdead_beef_cafe_f00du64);
    }
    {
        let mut enc = Asm::new();
        enc.mov(rdi, Imm64::from(-2i64));
        let code = enc.into_code();
        let bytes: [u8; 8] = code[2..10].try_into().unwrap();
        assert_eq!(i64::from_le_bytes(bytes), -2i64);
    }
    {
        // A negative narrow source sign-extends to the full width.
        let mut enc = Asm::new();
        enc.mov(rdi, Imm64::from(-1i8));
        let code = enc.into_code();
        let bytes: [u8; 8] = code[2..10].try_into().unwrap();
        assert_eq!(i64::from_le_bytes(bytes), -1i64);
    }
}

#[test]
fn imm32_round_trip() {
    {
        let mut enc = Asm::new();
        enc.mov(edi, Imm32::from(0xdead_beefu32));
        let code = enc.into_code();
        assert_eq!(code[0], 0xbf);
        let bytes: [u8; 4] = code[1..5].try_into().unwrap();
        assert_eq!(u32::from_le_bytes(bytes), 0xdead_beefu32);
    }
    {
        let mut enc = Asm::new();
        enc.mov(edi, Imm32::from(-123_456i32));
        let code = enc.into_code();
        let bytes: [u8; 4] = code[1..5].try_into().unwrap();
        assert_eq!(i32::from_le_bytes(bytes), -123_456i32);
    }
}

#[test]
fn imm16_round_trip() {
    {
        let mut enc = Asm::new();
        enc.mov(di, Imm16::from(0xabcdu16));
        let code = enc.into_code();
        let bytes: [u8; 2] = code[2..4].try_into().unwrap();
        assert_eq!(u16::from_le_bytes(bytes), 0xabcdu16);
    }
    {
        let mut enc = Asm::new();
        enc.mov(di, Imm16::from(-1i16));
        assert_eq!(enc.into_code(), [0x66, 0xbf, 0xff, 0xff]);
    }
}

#[test]
fn imm8_round_trip() {
    {
        let mut enc = Asm::new();
        enc.mov(dil, Imm8::from(0x7fu8));
        assert_eq!(enc.into_code(), [0x40, 0xb7, 0x7f]);
    }
    {
        // -128 stores the pattern 0x80.
        let mut enc = Asm::new();
        enc.mov(dil, Imm8::from(-128i8));
        assert_eq!(enc.into_code(), [0x40, 0xb7, 0x80]);
    }
}
