//! The `x86-64` jit assembler core.
//!
//! [`Asm`] owns a growing byte buffer.  All emission is append-only
//! except label resolution, which overwrites four placeholder bytes at
//! previously recorded offsets.  The spec functions in this module
//! describe the emitted bytes of every operand-encoding form exactly;
//! each encoder's `ensures` pins the new buffer contents down to the
//! byte.

use crate::imm::le32;
use crate::imm::le_bytes;
use crate::imm::Imm;
use crate::label::Label;
use crate::mem::Mem;
use crate::reg::Reg;
use crate::MemOp;
use vstd::prelude::*;

verus! {

/// The byte sequence of an optional prefix byte.
pub open spec fn opt_seq(b: Option<u8>) -> Seq<u8> {
    match b {
        Some(x) => seq![x],
        None => Seq::empty(),
    }
}

/// The `REX` byte `0100_WRXB`; `r`, `x` and `b` are the full 4-bit
/// indices of the ModR/M.reg, SIB.index and ModR/M.rm (or SIB.base)
/// operands, of which bit 3 is extracted.
pub open spec fn spec_rex(w: bool, r: u8, x: u8, b: u8) -> u8
    recommends
        r < 16,
        x < 16,
        b < 16,
{
    (0x40 + (if w {
        8int
    } else {
        0int
    }) + (r / 8) * 4 + (x / 8) * 2 + (b / 8)) as u8
}

/// The `ModR/M` byte from its three fields.
pub open spec fn spec_modrm(md: u8, reg: u8, rm: u8) -> u8 {
    ((md % 4) * 64 + (reg % 8) * 8 + (rm % 8)) as u8
}

/// The `SIB` byte from its three fields.
pub open spec fn spec_sib(scale: u8, index: u8, base: u8) -> u8 {
    ((scale % 4) * 64 + (index % 8) * 8 + (base % 8)) as u8
}

/// Encode the `REX` byte.
fn rex(w: bool, r: u8, x: u8, b: u8) -> (res: u8)
    requires
        r < 16,
        x < 16,
        b < 16,
    ensures
        res == spec_rex(w, r, x, b),
{
    let wb: u8 = if w {
        8
    } else {
        0
    };
    0x40 + wb + (r / 8) * 4 + (x / 8) * 2 + (b / 8)
}

/// Encode the `ModR/M` byte.
fn modrm(md: u8, reg: u8, rm: u8) -> (res: u8)
    ensures
        res == spec_modrm(md, reg, rm),
{
    (md % 4) * 64 + (reg % 8) * 8 + (rm % 8)
}

/// Encode the `SIB` byte.
fn sib(scale: u8, index: u8, base: u8) -> (res: u8)
    ensures
        res == spec_sib(scale, index, base),
{
    (scale % 4) * 64 + (index % 8) * 8 + (base % 8)
}

/// The legacy operand-size prefix of a register operand: `0x66` for
/// 16-bit operands, nothing otherwise.
pub open spec fn prefix_opt<R: Reg>(op: R) -> Option<u8> {
    if op.sw16() {
        Some(0x66u8)
    } else {
        None
    }
}

/// The optional `REX` byte of a register-register form: present if
/// either register mandates it, with `W` from the operand width, `R`
/// from the ModR/M.reg operand `op2` and `B` from the ModR/M.rm
/// operand `op1`.
pub open spec fn rr_rex<R: Reg>(op1: R, op2: R) -> Option<u8> {
    if op1.sneed_rex() || op2.sneed_rex() {
        Some(spec_rex(op1.srexw(), op2.sidx(), 0, op1.sidx()))
    } else {
        None
    }
}

/// Precondition of the register-register form: a legacy high-byte
/// register cannot appear in an instruction carrying a `REX` prefix.
pub open spec fn rr_ok<R: Reg>(op1: R, op2: R) -> bool {
    (op1.shigh() || op2.shigh()) ==> rr_rex(op1, op2) is None
}

/// The bytes of a register-register (`RR`) instruction.
pub open spec fn rr_bytes<R: Reg>(opc: Seq<u8>, op1: R, op2: R) -> Seq<u8> {
    opt_seq(prefix_opt(op1)) + opt_seq(rr_rex(op1, op2)) + opc + seq![
        spec_modrm(3, op2.sidx(), op1.sidx()),
    ]
}

/// The optional `REX` byte of a single-register form.
pub open spec fn r_rex<R: Reg>(op1: R) -> Option<u8> {
    if op1.sneed_rex() {
        Some(spec_rex(op1.srexw(), 0, 0, op1.sidx()))
    } else {
        None
    }
}

/// The bytes of an opcode-embedded-register plus immediate (`OI`)
/// instruction: the low three index bits are added to the opcode.
pub open spec fn oi_bytes<R: Reg>(opc: u8, op1: R, imm: Seq<u8>) -> Seq<u8>
    recommends
        opc + 7 < 256,
{
    opt_seq(prefix_opt(op1)) + opt_seq(r_rex(op1)) + seq![(opc + op1.sidx() % 8) as u8] + imm
}

/// The bytes of a single-register (`R`) instruction with an opcode
/// extension in ModR/M.reg.
pub open spec fn r_bytes<R: Reg>(opc: u8, ext: u8, op1: R) -> Seq<u8> {
    opt_seq(prefix_opt(op1)) + opt_seq(r_rex(op1)) + seq![opc, spec_modrm(3, ext, op1.sidx())]
}

/// The optional `REX` byte of a form with a memory operand.  `W` is
/// the operand width, `reg_field` the ModR/M.reg operand (register
/// index or opcode extension), `presence` whether a register operand
/// alone mandates `REX`; `X` comes from the index and `B` from the
/// base register of the memory operand.
pub open spec fn mem_rex(w: bool, reg_field: u8, presence: bool, m: MemOp) -> Option<u8> {
    if w || presence || m.sindex().sidx() >= 8 || m.sbase().sidx() >= 8 {
        Some(spec_rex(w, reg_field, m.sindex().sidx(), m.sbase().sidx()))
    } else {
        None
    }
}

/// The ModR/M byte, optional SIB byte and optional displacement of a
/// memory operand, by addressing mode.
pub open spec fn mem_modrm_sib_disp(reg_field: u8, m: MemOp) -> Seq<u8> {
    match m {
        MemOp::Indirect(base) => seq![spec_modrm(0, reg_field, base.sidx())],
        MemOp::IndirectDisp(base, disp) => seq![spec_modrm(2, reg_field, base.sidx())] + le32(
            disp as int,
        ),
        MemOp::IndirectBaseIndex(base, index) => seq![
            spec_modrm(0, reg_field, 4),
            spec_sib(0, index.sidx(), base.sidx()),
        ],
    }
}

/// The bytes of a memory-register (`MR`) instruction; the
/// register-memory (`RM`) form emits the same bytes with the operand
/// roles swapped by the caller.
pub open spec fn mr_bytes<R: Reg>(opc: Seq<u8>, op1: MemOp, op2: R) -> Seq<u8> {
    opt_seq(prefix_opt(op2)) + opt_seq(mem_rex(op2.srexw(), op2.sidx(), op2.sneed_rex(), op1))
        + opc + mem_modrm_sib_disp(op2.sidx(), op1)
}

/// Precondition of the `MR`/`RM` forms: the memory operand is
/// well-formed and a legacy high-byte register cannot meet a `REX`
/// prefix.
pub open spec fn mr_ok<R: Reg>(op1: MemOp, op2: R) -> bool {
    &&& op1.swf()
    &&& (op2.shigh() ==> mem_rex(op2.srexw(), op2.sidx(), op2.sneed_rex(), op1) is None)
}

/// The legacy operand-size prefix chosen from an access-size hint.
pub open spec fn size_prefix_opt(w16: bool) -> Option<u8> {
    if w16 {
        Some(0x66u8)
    } else {
        None
    }
}

/// The bytes of a memory-immediate (`MI`) instruction; prefix and
/// `REX.W` are chosen from the access-size hint of the memory operand.
pub open spec fn mi_bytes(opc: u8, ext: u8, m: MemOp, w16: bool, w64: bool, imm: Seq<u8>) -> Seq<
    u8,
> {
    opt_seq(size_prefix_opt(w16)) + opt_seq(mem_rex(w64, ext, false, m)) + seq![opc]
        + mem_modrm_sib_disp(ext, m) + imm
}

/// The bytes of a single-memory-operand (`M`) instruction with an
/// opcode extension in ModR/M.reg.
pub open spec fn m_bytes(opc: u8, ext: u8, m: MemOp, w16: bool, w64: bool) -> Seq<u8> {
    opt_seq(size_prefix_opt(w16)) + opt_seq(mem_rex(w64, ext, false, m)) + seq![opc]
        + mem_modrm_sib_disp(ext, m)
}

/// True if position `i` lies inside one of the four-byte fix-up
/// ranges starting at the offsets in `offs`.
pub open spec fn in_fixup(offs: Seq<usize>, i: int) -> bool {
    exists|k: int| 0 <= k < offs.len() && #[trigger] offs[k] <= i < offs[k] + 4
}

/// The relation between a buffer before and after binding a label at
/// `loc` whose pending fix-up offsets are `offs`: every fix-up range
/// holds the little-endian `rel32` displacement `loc - offset - 4`,
/// and every byte outside the fix-up ranges is unchanged.
pub open spec fn patched_all(pre: Seq<u8>, offs: Seq<usize>, loc: usize, post: Seq<u8>) -> bool {
    &&& post.len() == pre.len()
    &&& (forall|i: int|
        0 <= i < pre.len() && !in_fixup(offs, i) ==> #[trigger] post[i] == pre[i])
    &&& (forall|k: int|
        0 <= k < offs.len() ==> post.subrange(#[trigger] offs[k] as int, offs[k] + 4) == le32(
            loc - offs[k] - 4,
        ))
}

/// Law: after a label bound at `loc` has been resolved, the four
/// bytes at each recorded fix-up offset decode to the `rel32`
/// displacement `loc - offset - 4`: directly where the target lies at
/// or behind the end of the placeholder, and as its two's complement
/// pattern where the jump goes backwards.
pub proof fn lemma_patched_rel32(
    pre: Seq<u8>,
    offs: Seq<usize>,
    loc: usize,
    post: Seq<u8>,
    k: int,
)
    requires
        patched_all(pre, offs, loc, post),
        0 <= k < offs.len(),
        loc <= 0x7fff_ffff,
        offs[k] + 4 <= 0x7fff_ffff,
    ensures
        crate::imm::le_val(post.subrange(offs[k] as int, offs[k] + 4)) == if loc >= offs[k] + 4 {
            loc - offs[k] - 4
        } else {
            loc - offs[k] - 4 + 0x1_0000_0000
        },
{
    crate::imm::lemma_le32_val(loc - offs[k] - 4);
}

/// The bytes of a label jump whose label is still unbound: the opcode
/// followed by a four-byte placeholder.
pub open spec fn jmp_unbound_bytes(opc: Seq<u8>) -> Seq<u8> {
    opc + seq![0u8, 0u8, 0u8, 0u8]
}

/// The bytes of a label jump resolved immediately against a label
/// bound at `loc`, emitted at buffer position `pos`: the `rel32` is
/// relative to the end of the placeholder.
pub open spec fn jmp_bound_bytes(opc: Seq<u8>, pos: int, loc: int) -> Seq<u8> {
    opc + le32(loc - (pos + opc.len()) - 4)
}

/// `x86-64` jit assembler.
pub struct Asm {
    buf: Vec<u8>,
}

impl View for Asm {
    type V = Seq<u8>;

    closed spec fn view(&self) -> Seq<u8> {
        self.buf@
    }
}

impl Asm {
    /// Create a new `x86-64` jit assembler with an empty code buffer.
    pub fn new() -> (r: Asm)
        ensures
            r@ == Seq::<u8>::empty(),
    {
        let buf = Vec::with_capacity(1024);
        Asm { buf }
    }

    /// Consume the assembler and get the emitted code.
    pub fn into_code(self) -> (r: Vec<u8>)
        ensures
            r@ == self@,
    {
        self.buf
    }

    /// Emit a slice of bytes.
    pub(crate) fn emit(&mut self, bytes: &[u8])
        ensures
            final(self)@ == old(self)@ + bytes@,
    {
        let n: usize = bytes.len();
        let mut i: usize = 0;
        while i < n
            invariant
                i <= n,
                n == bytes@.len(),
                self.buf@ == old(self).buf@ + bytes@.take(i as int),
            decreases n - i,
        {
            self.buf.push(bytes[i]);
            proof {
                assert(bytes@.take(i + 1) =~= bytes@.take(i as int).push(bytes@[i as int]));
                assert(self.buf@ =~= old(self).buf@ + bytes@.take(i + 1));
            }
            i = i + 1;
        }
        proof {
            assert(bytes@.take(n as int) =~= bytes@);
        }
    }

    /// Emit a single byte.
    pub(crate) fn emit_byte(&mut self, b: u8)
        ensures
            final(self)@ == old(self)@ + seq![b],
    {
        self.buf.push(b);
        proof {
            assert(self.buf@ =~= old(self).buf@ + seq![b]);
        }
    }

    /// Emit a slice of bytes at `pos`, overwriting what is there.
    /// Label resolution uses this to patch `rel32` placeholders; all
    /// other emission is append-only.
    pub(crate) fn emit_at(&mut self, pos: usize, bytes: &[u8])
        requires
            pos + bytes@.len() <= old(self)@.len(),
            old(self)@.len() <= usize::MAX,
        ensures
            final(self)@.len() == old(self)@.len(),
            forall|j: int|
                0 <= j < old(self)@.len() && !(pos <= j < pos + bytes@.len())
                    ==> #[trigger] final(self)@[j] == old(self)@[j],
            final(self)@.subrange(pos as int, pos + bytes@.len()) == bytes@,
    {
        let n: usize = bytes.len();
        let mut i: usize = 0;
        while i < n
            invariant
                i <= n,
                n == bytes@.len(),
                pos + n <= old(self)@.len(),
                old(self)@.len() <= usize::MAX,
                self@.len() == old(self)@.len(),
                forall|j: int|
                    0 <= j < old(self)@.len() && !(pos <= j < pos + i) ==> #[trigger] self@[j]
                        == old(self)@[j],
                forall|j: int| 0 <= j < i ==> #[trigger] self@[pos + j] == bytes@[j],
            decreases n - i,
        {
            self.buf[pos + i] = bytes[i];
            i = i + 1;
        }
        proof {
            assert forall|k: int| 0 <= k < bytes@.len() implies self@.subrange(
                pos as int,
                pos + bytes@.len(),
            )[k] == bytes@[k] by {
                assert(self@[pos + k] == bytes@[k]);
            }
            assert(self@.subrange(pos as int, pos + bytes@.len()) =~= bytes@);
        }
    }

    /// Emit an optional prefix byte.
    fn emit_optional(&mut self, byte: Option<u8>)
        ensures
            final(self)@ == old(self)@ + opt_seq(byte),
    {
        match byte {
            Some(b) => {
                self.buf.push(b);
            },
            None => {},
        }
        proof {
            assert(self.buf@ =~= old(self).buf@ + opt_seq(byte));
        }
    }

    /// Encode a register-register instruction (`MR` operand order:
    /// `op1` in ModR/M.rm, `op2` in ModR/M.reg).
    pub(crate) fn encode_rr<R: Reg>(&mut self, opc: &[u8], op1: R, op2: R)
        requires
            rr_ok(op1, op2),
        ensures
            final(self)@ == old(self)@ + rr_bytes(opc@, op1, op2),
    {
        proof {
            op1.lemma_idx_bound();
            op2.lemma_idx_bound();
        }
        let prefix: Option<u8> = if op1.is_w16() {
            Some(0x66)
        } else {
            None
        };
        let rx: Option<u8> = if op1.need_rex() || op2.need_rex() {
            Some(rex(op1.rexw(), op2.idx(), 0, op1.idx()))
        } else {
            None
        };
        self.emit_optional(prefix);
        self.emit_optional(rx);
        self.emit(opc);
        self.emit_byte(modrm(3, op2.idx(), op1.idx()));
        proof {
            assert(self@ =~= old(self)@ + rr_bytes(opc@, op1, op2));
        }
    }

    /// Encode an opcode-embedded-register plus immediate instruction.
    pub(crate) fn encode_oi<R: Reg, I: Imm>(&mut self, opc: u8, op1: R, op2: I)
        requires
            opc + 7 < 256,
        ensures
            final(self)@ == old(self)@ + oi_bytes(opc, op1, op2.sbytes()),
    {
        proof {
            op1.lemma_idx_bound();
        }
        let prefix: Option<u8> = if op1.is_w16() {
            Some(0x66)
        } else {
            None
        };
        let rx: Option<u8> = if op1.need_rex() {
            Some(rex(op1.rexw(), 0, 0, op1.idx()))
        } else {
            None
        };
        self.emit_optional(prefix);
        self.emit_optional(rx);
        self.emit_byte(opc + op1.idx() % 8);
        op2.append_to(&mut self.buf);
        proof {
            assert(self@ =~= old(self)@ + oi_bytes(opc, op1, op2.sbytes()));
        }
    }

    /// Encode a single-register instruction with an opcode extension
    /// in ModR/M.reg.
    pub(crate) fn encode_r<R: Reg>(&mut self, opc: u8, opc_ext: u8, op1: R)
        ensures
            final(self)@ == old(self)@ + r_bytes(opc, opc_ext, op1),
    {
        proof {
            op1.lemma_idx_bound();
        }
        let prefix: Option<u8> = if op1.is_w16() {
            Some(0x66)
        } else {
            None
        };
        let rx: Option<u8> = if op1.need_rex() {
            Some(rex(op1.rexw(), 0, 0, op1.idx()))
        } else {
            None
        };
        self.emit_optional(prefix);
        self.emit_optional(rx);
        self.emit_byte(opc);
        self.emit_byte(modrm(3, opc_ext, op1.idx()));
        proof {
            assert(self@ =~= old(self)@ + r_bytes(opc, opc_ext, op1));
        }
    }

    /// Emit the ModR/M byte, optional SIB byte and optional
    /// displacement of a memory operand.
    fn emit_mem_modrm(&mut self, reg_field: u8, m: MemOp)
        ensures
            final(self)@ == old(self)@ + mem_modrm_sib_disp(reg_field, m),
    {
        proof {
            m.sbase().lemma_idx_bound();
            m.sindex().lemma_idx_bound();
        }
        match m {
            MemOp::Indirect(base) => {
                self.emit_byte(modrm(0, reg_field, base.idx()));
            },
            MemOp::IndirectDisp(base, disp) => {
                self.emit_byte(modrm(2, reg_field, base.idx()));
                crate::imm::append_disp32(&mut self.buf, disp);
            },
            MemOp::IndirectBaseIndex(base, index) => {
                self.emit_byte(modrm(0, reg_field, 4));
                self.emit_byte(sib(0, index.idx(), base.idx()));
            },
        }
        proof {
            assert(self@ =~= old(self)@ + mem_modrm_sib_disp(reg_field, m));
        }
    }

    /// Emit the optional `REX` byte of a form with a memory operand.
    fn emit_mem_rex(&mut self, w: bool, reg_field: u8, presence: bool, m: MemOp)
        requires
            reg_field < 16,
        ensures
            final(self)@ == old(self)@ + opt_seq(mem_rex(w, reg_field, presence, m)),
    {
        proof {
            m.sbase().lemma_idx_bound();
            m.sindex().lemma_idx_bound();
        }
        let x = m.index().idx();
        let b = m.base().idx();
        let rx: Option<u8> = if w || presence || x >= 8 || b >= 8 {
            Some(rex(w, reg_field, x, b))
        } else {
            None
        };
        self.emit_optional(rx);
    }

    /// Encode a memory-register instruction.
    pub(crate) fn encode_mr<R: Reg>(&mut self, opc: u8, op1: MemOp, op2: R)
        requires
            mr_ok(op1, op2),
        ensures
            final(self)@ == old(self)@ + mr_bytes(seq![opc], op1, op2),
    {
        proof {
            op2.lemma_idx_bound();
        }
        let prefix: Option<u8> = if op2.is_w16() {
            Some(0x66)
        } else {
            None
        };
        self.emit_optional(prefix);
        self.emit_mem_rex(op2.rexw(), op2.idx(), op2.need_rex(), op1);
        self.emit_byte(opc);
        self.emit_mem_modrm(op2.idx(), op1);
        proof {
            assert(self@ =~= old(self)@ + mr_bytes(seq![opc], op1, op2));
        }
    }

    /// Encode a register-memory instruction: the same bytes as the
    /// memory-register form with the operand positions swapped.
    pub(crate) fn encode_rm<R: Reg>(&mut self, opc: u8, op1: R, op2: MemOp)
        requires
            mr_ok(op2, op1),
        ensures
            final(self)@ == old(self)@ + mr_bytes(seq![opc], op2, op1),
    {
        self.encode_mr(opc, op2, op1);
    }

    /// Encode a memory-immediate instruction.
    pub(crate) fn encode_mi<M: Mem, I: Imm>(&mut self, opc: u8, opc_ext: u8, op1: M, op2: I)
        requires
            opc_ext < 8,
            op1.sop().swf(),
        ensures
            final(self)@ == old(self)@ + mi_bytes(
                opc,
                opc_ext,
                op1.sop(),
                op1.s16(),
                op1.s64(),
                op2.sbytes(),
            ),
    {
        let m = op1.op();
        let prefix: Option<u8> = if op1.w16() {
            Some(0x66)
        } else {
            None
        };
        self.emit_optional(prefix);
        self.emit_mem_rex(op1.w64(), opc_ext, false, m);
        self.emit_byte(opc);
        self.emit_mem_modrm(opc_ext, m);
        op2.append_to(&mut self.buf);
        proof {
            assert(self@ =~= old(self)@ + mi_bytes(
                opc,
                opc_ext,
                op1.sop(),
                op1.s16(),
                op1.s64(),
                op2.sbytes(),
            ));
        }
    }

    /// Encode a single-memory-operand instruction with an opcode
    /// extension in ModR/M.reg.
    pub(crate) fn encode_m<M: Mem>(&mut self, opc: u8, opc_ext: u8, op1: M)
        requires
            opc_ext < 8,
            op1.sop().swf(),
        ensures
            final(self)@ == old(self)@ + m_bytes(opc, opc_ext, op1.sop(), op1.s16(), op1.s64()),
    {
        let m = op1.op();
        let prefix: Option<u8> = if op1.w16() {
            Some(0x66)
        } else {
            None
        };
        self.emit_optional(prefix);
        self.emit_mem_rex(op1.w64(), opc_ext, false, m);
        self.emit_byte(opc);
        self.emit_mem_modrm(opc_ext, m);
        proof {
            assert(self@ =~= old(self)@ + m_bytes(opc, opc_ext, op1.sop(), op1.s16(), op1.s64()));
        }
    }

    /// Overwrite the four bytes at `off` with the little-endian 32-bit
    /// two's complement pattern of `d`.
    fn patch32(&mut self, off: usize, d: i32)
        requires
            off + 4 <= old(self)@.len(),
            old(self)@.len() <= usize::MAX,
        ensures
            final(self)@.len() == old(self)@.len(),
            forall|j: int|
                0 <= j < old(self)@.len() && !(off <= j < off + 4) ==> #[trigger] final(self)@[j]
                    == old(self)@[j],
            final(self)@.subrange(off as int, off as int + 4) == le32(d as int),
    {
        let p: u32 = if d >= 0 {
            d as u32
        } else {
            0xffff_ffffu32 - ((-(d + 1)) as u32)
        };
        let b0: u8 = (p % 256) as u8;
        let b1: u8 = ((p / 256) % 256) as u8;
        let b2: u8 = ((p / 0x1_0000) % 256) as u8;
        let b3: u8 = ((p / 0x100_0000) % 256) as u8;
        let disp: [u8; 4] = [b0, b1, b2, b3];
        proof {
            assert(disp@ =~= seq![b0, b1, b2, b3]);
        }
        self.emit_at(off, disp.as_slice());
        proof {
            crate::imm::lemma_i32_pattern(d as int);
            let n = p as nat;
            assert(le_bytes(n / 0x100_0000 / 256, 0) =~= Seq::<u8>::empty());
            assert(le_bytes(n / 0x100_0000, 1) =~= seq![b3]);
            assert(le_bytes(n / 0x1_0000, 2) =~= seq![b2] + le_bytes(n / 0x100_0000, 1));
            assert(le_bytes(n / 256, 3) =~= seq![b1] + le_bytes(n / 0x1_0000, 2));
            assert(le_bytes(n, 4) =~= seq![b0] + le_bytes(n / 256, 3));
            assert(le32(d as int) =~= seq![b0, b1, b2, b3]);
            assert(self@.subrange(off as int, off as int + 4) =~= seq![b0, b1, b2, b3]);
        }
    }

    /// If the label is bound, patch every pending fix-up with the
    /// `rel32` displacement towards the label location and drain the
    /// fix-up set; an unbound label is left untouched.
    fn resolve(&mut self, label: &mut Label)
        requires
            old(label).wf_ranges(old(self)@.len() as int),
            old(self)@.len() <= 0x7fff_ffff,
        ensures
            final(self)@.len() == old(self)@.len(),
            final(label).sloc() == old(label).sloc(),
            old(label).sloc() is None ==> final(self)@ == old(self)@ && final(label).soffs()
                == old(label).soffs(),
            old(label).sloc() is Some ==> final(label).soffs() == Seq::<usize>::empty()
                && patched_all(
                old(self)@,
                old(label).soffs(),
                old(label).sloc()->0,
                final(self)@,
            ),
    {
        let locopt = label.location();
        match locopt {
            None => {},
            Some(loc) => {
                let loc_i: i32 = loc as i32;
                let n: usize = label.offsets().len();
                let mut i: usize = 0;
                while i < n
                    invariant
                        i <= n,
                        label == old(label),
                        n == label.soffs().len(),
                        label.sloc() == Some(loc),
                        label.wf_ranges(old(self)@.len() as int),
                        old(self)@.len() <= 0x7fff_ffff,
                        loc_i == loc,
                        loc <= old(self)@.len(),
                        self@.len() == old(self)@.len(),
                        forall|j: int|
                            0 <= j < old(self)@.len() && !in_fixup(
                                label.soffs().take(i as int),
                                j,
                            ) ==> #[trigger] self@[j] == old(self)@[j],
                        forall|k: int|
                            0 <= k < i ==> self@.subrange(
                                #[trigger] label.soffs()[k] as int,
                                label.soffs()[k] + 4,
                            ) == le32(loc - label.soffs()[k] - 4),
                    decreases n - i,
                {
                    let off: usize = label.offsets()[i];
                    let ghost prev = self@;
                    let disp: i32 = loc_i - (off as i32) - 4;
                    self.patch32(off, disp);
                    proof {
                        let offs = label.soffs();
                        // Bytes outside the fix-up ranges of the first i + 1
                        // offsets are still the original ones.
                        assert forall|j: int|
                            0 <= j < old(self)@.len() && !in_fixup(
                                offs.take(i + 1),
                                j,
                            ) implies #[trigger] self@[j] == old(self)@[j] by {
                            assert(forall|k: int|
                                0 <= k < i + 1 ==> offs.take(i + 1)[k] == #[trigger] offs[k]);
                            assert(!in_fixup(offs.take(i as int), j));
                            assert(!(off <= j < off + 4));
                            assert(prev[j] == old(self)@[j]);
                        }
                        // Earlier patches are disjoint from this one and
                        // therefore untouched.
                        assert forall|k: int| 0 <= k < i + 1 implies self@.subrange(
                            #[trigger] offs[k] as int,
                            offs[k] + 4,
                        ) == le32(loc - offs[k] - 4) by {
                            if k < i {
                                assert(offs[k] + 4 <= offs[i as int]);
                                assert(self@.subrange(offs[k] as int, offs[k] + 4) =~= prev
                                    .subrange(offs[k] as int, offs[k] + 4));
                            } else {
                                assert(offs[k] == off);
                                assert(disp == loc - off - 4);
                            }
                        }
                    }
                    i = i + 1;
                }
                proof {
                    assert(label.soffs().take(n as int) =~= label.soffs());
                }
                label.clear_offsets();
            },
        }
    }

    /// Bind the [`Label`] to the current buffer position and patch
    /// every pending fix-up recorded for it.  A label can only be
    /// bound once.
    pub fn bind(&mut self, label: &mut Label)
        requires
            old(label).swf(old(self)@.len() as int),
            old(label).sloc() is None,
            old(self)@.len() <= 0x7fff_ffff,
        ensures
            final(label).sloc() == Some(old(self)@.len() as usize),
            final(label).soffs() == Seq::<usize>::empty(),
            final(label).swf(final(self)@.len() as int),
            final(self)@.len() == old(self)@.len(),
            patched_all(
                old(self)@,
                old(label).soffs(),
                old(self)@.len() as usize,
                final(self)@,
            ),
    {
        let loc = self.buf.len();
        label.bind(loc);
        self.resolve(label);
    }

    /// Encode a jump towards `op1`.  An unbound label gets a four-byte
    /// placeholder and a recorded fix-up; a bound label is resolved
    /// immediately.
    pub(crate) fn encode_jmp_label(&mut self, opc: &[u8], op1: &mut Label)
        requires
            old(op1).swf(old(self)@.len() as int),
            old(self)@.len() + opc@.len() + 4 <= 0x7fff_ffff,
            opc@.len() >= 1,
        ensures
            final(op1).sloc() == old(op1).sloc(),
            final(op1).swf(final(self)@.len() as int),
            final(self)@.len() == old(self)@.len() + opc@.len() + 4,
            old(op1).sloc() is None ==> final(self)@ == old(self)@ + jmp_unbound_bytes(opc@)
                && final(op1).soffs() == old(op1).soffs().push(
                (old(self)@.len() + opc@.len()) as usize,
            ),
            old(op1).sloc() is Some ==> final(self)@ == old(self)@ + jmp_bound_bytes(
                opc@,
                old(self)@.len() as int,
                old(op1).sloc()->0 as int,
            ) && final(op1).soffs() == Seq::<usize>::empty(),
    {
        self.emit(opc);
        let off = self.buf.len();
        op1.record_offset(off);
        self.emit_byte(0);
        self.emit_byte(0);
        self.emit_byte(0);
        self.emit_byte(0);
        let ghost mid = self@;
        proof {
            assert(mid =~= old(self)@ + jmp_unbound_bytes(opc@));
        }
        self.resolve(op1);
        proof {
            if old(op1).sloc() is Some {
                let loc = old(op1).sloc()->0;
                assert(old(op1).soffs().len() == 0);
                let offs = old(op1).soffs().push(off);
                assert(offs[0] == off);
                assert(patched_all(mid, offs, loc, self@));
                assert(self@.subrange(off as int, off + 4) == le32(loc - off - 4));
                assert forall|j: int| 0 <= j < old(self)@.len() implies #[trigger] self@[j]
                    == old(self)@[j] by {
                    assert(!in_fixup(offs, j));
                    assert(mid[j] == old(self)@[j]);
                }
                assert forall|j: int| old(self)@.len() <= j < off implies #[trigger] self@[j]
                    == opc@[j - old(self)@.len()] by {
                    assert(!in_fixup(offs, j));
                    assert(mid[j] == opc@[j - old(self)@.len()]);
                }
                assert(self@ =~= old(self)@ + jmp_bound_bytes(
                    opc@,
                    old(self)@.len() as int,
                    loc as int,
                ));
            }
        }
    }
}

} // verus!
