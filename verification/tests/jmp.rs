use juicebox_asm::Asm;
use juicebox_asm::Label;

#[test]
fn jmp_label() {
    {
        // Bind first.
        let mut lbl = Label::new();
        let mut enc = Asm::new();
        enc.bind(&mut lbl);
        enc.jmp(&mut lbl);
        // 0xfffffffb -> -5
        assert_eq!(enc.into_code(), [0xe9, 0xfb, 0xff, 0xff, 0xff]);
    }
    {
        // Bind later.
        let mut lbl = Label::new();
        let mut enc = Asm::new();
        enc.jmp(&mut lbl);
        enc.bind(&mut lbl);
        assert_eq!(enc.into_code(), [0xe9, 0x00, 0x00, 0x00, 0x00]);
    }
}

#[test]
fn jmp_label2() {
    {
        let mut lbl = Label::new();
        let mut enc = Asm::new();
        enc.jmp(&mut lbl);
        enc.nop();
        enc.nop();
        enc.bind(&mut lbl);
        assert_eq!(enc.into_code(), [0xe9, 0x02, 0x00, 0x00, 0x00, 0x90, 0x90]);
    }
    {
        let mut lbl = Label::new();
        let mut enc = Asm::new();
        enc.jmp(&mut lbl);
        for _ in 0..0x1ff {
            enc.nop();
        }
        enc.bind(&mut lbl);
        assert_eq!(enc.into_code()[..5], [0xe9, 0xff, 0x01, 0x00, 0x00]);
    }
}

#[test]
fn jmp_label_interleaved() {
    // Two forward references to the same label with filler in between:
    // both fix-ups are patched when the label binds.
    let mut lbl = Label::new();
    let mut enc = Asm::new();
    enc.jmp(&mut lbl);
    enc.nop();
    enc.jmp(&mut lbl);
    enc.nop();
    enc.bind(&mut lbl);
    let code = enc.into_code();
    // Layout: jmp (0..5), nop (5), jmp (6..11), nop (11), bind at 12.
    // First placeholder at 1: rel32 = 12 - 1 - 4 = 7.
    // Second placeholder at 7: rel32 = 12 - 7 - 4 = 1.
    assert_eq!(
        code,
        [0xe9, 0x07, 0x00, 0x00, 0x00, 0x90, 0xe9, 0x01, 0x00, 0x00, 0x00, 0x90]
    );
}

#[test]
fn jz_jnz_label() {
    {
        let mut lbl = Label::new();
        let mut enc = Asm::new();
        enc.jz(&mut lbl);
        enc.bind(&mut lbl);
        assert_eq!(enc.into_code(), [0x0f, 0x84, 0x00, 0x00, 0x00, 0x00]);
    }
    {
        let mut lbl = Label::new();
        let mut enc = Asm::new();
        enc.bind(&mut lbl);
        enc.jnz(&mut lbl);
        // rel32 = 0 - 2 - 4 = -6
        assert_eq!(enc.into_code(), [0x0f, 0x85, 0xfa, 0xff, 0xff, 0xff]);
    }
}
