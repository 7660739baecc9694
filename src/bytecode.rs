use crate::flexbytes::FlexBytes;
use vstd::prelude::*;

verus! {

/// Whether the bit of weight `weight` is set in `byte`.
pub open spec fn bit_set(byte: u8, weight: int) -> bool {
    (byte as int / weight) % 2 == 1
}

/// The REX byte with the fixed `0100` top nibble and flags W, R, X and B.
pub open spec fn rex_value(w: bool, r: bool, x: bool, b: bool) -> u8 {
    (0x40 + (if w { 8int } else { 0 }) + (if r { 4int } else { 0 }) + (if x { 2int } else { 0 }) + (
    if b { 1int } else { 0 })) as u8
}

/// A byte laid out as a 2-bit field over two 3-bit fields, as ModR/M
/// (mode, reg, rm) and SIB (scale, index, base) are.
pub open spec fn fields_byte(hi: u8, mid: u8, lo: u8) -> u8 {
    (hi * 64 + mid * 8 + lo) as u8
}

/// The top 2-bit field of a ModR/M or SIB byte.
pub open spec fn hi_field(byte: u8) -> u8 {
    byte / 64
}

/// The middle 3-bit field of a ModR/M or SIB byte.
pub open spec fn mid_field(byte: u8) -> u8 {
    (byte / 8) % 8
}

/// The low 3-bit field of a ModR/M or SIB byte.
pub open spec fn lo_field(byte: u8) -> u8 {
    byte % 8
}

/// Packing three in-range fields and reading them back gives the fields again.
pub proof fn lemma_fields_byte(hi: u8, mid: u8, lo: u8)
    requires
        hi <= 3,
        mid <= 7,
        lo <= 7,
    ensures
        hi * 64 + mid * 8 + lo <= 255,
        hi_field(fields_byte(hi, mid, lo)) == hi,
        mid_field(fields_byte(hi, mid, lo)) == mid,
        lo_field(fields_byte(hi, mid, lo)) == lo,
{
    let v = fields_byte(hi, mid, lo);
    assert(v == hi * 64 + mid * 8 + lo);
    assert(v / 64 == hi) by (nonlinear_arith)
        requires
            v == hi * 64 + mid * 8 + lo,
            mid <= 7,
            lo <= 7,
    ;
    assert(v / 8 == hi * 8 + mid) by (nonlinear_arith)
        requires
            v == hi * 64 + mid * 8 + lo,
            lo <= 7,
    ;
    assert((hi * 8 + mid) % 8 == mid) by (nonlinear_arith)
        requires
            mid <= 7,
    ;
    assert(v % 8 == lo) by (nonlinear_arith)
        requires
            v == hi * 64 + mid * 8 + lo,
            lo <= 7,
    ;
}

/// The flags of a REX byte built from flags are those flags, under the fixed top nibble.
pub proof fn lemma_rex_value(w: bool, r: bool, x: bool, b: bool)
    ensures
        rex_value(w, r, x, b) / 16 == 4,
        bit_set(rex_value(w, r, x, b), 8) == w,
        bit_set(rex_value(w, r, x, b), 4) == r,
        bit_set(rex_value(w, r, x, b), 2) == x,
        bit_set(rex_value(w, r, x, b), 1) == b,
{
}

/// The REX prefix: `0100` in the top nibble, then the W, R, X and B flags.
#[derive(Debug, Clone, Copy, PartialEq, Eq)]
pub struct Rex(u8);

impl Rex {
    #[verifier::type_invariant]
    spec fn inv(self) -> bool {
        self.0 / 16 == 4
    }

    /// The byte this prefix is written as.
    pub closed spec fn spec_byte(self) -> u8 {
        self.0
    }

    /// W: 64-bit operand size.
    pub open spec fn spec_w(self) -> bool {
        bit_set(self.spec_byte(), 8)
    }

    /// R: extends the ModR/M reg field.
    pub open spec fn spec_r(self) -> bool {
        bit_set(self.spec_byte(), 4)
    }

    /// X: extends the SIB index field.
    pub open spec fn spec_x(self) -> bool {
        bit_set(self.spec_byte(), 2)
    }

    /// B: extends the ModR/M rm field, the SIB base field or the opcode register.
    pub open spec fn spec_b(self) -> bool {
        bit_set(self.spec_byte(), 1)
    }

    /// The prefix with no flag set.
    pub fn new() -> (r: Rex)
        ensures
            r.spec_byte() == rex_value(false, false, false, false),
    {
        Rex(0b0100_0000)
    }

    /// The prefix with the given flags.
    pub fn from_flags(w: bool, r: bool, x: bool, b: bool) -> (res: Rex)
        ensures
            res.spec_byte() == rex_value(w, r, x, b),
    {
        proof {
            lemma_rex_value(w, r, x, b);
        }
        let mut v: u8 = 0b0100_0000;
        if w {
            v = v + 0b1000;
        }
        if r {
            v = v + 0b0100;
        }
        if x {
            v = v + 0b0010;
        }
        if b {
            v = v + 0b0001;
        }
        Rex(v)
    }

    /// The prefix written as `raw`, whose top nibble must be `0100`.
    pub fn from_raw(raw: u8) -> (r: Rex)
        requires
            raw / 16 == 4,
        ensures
            r.spec_byte() == raw,
    {
        Rex(raw)
    }

    /// `Some` prefix written as `raw`, or `None` where its top nibble is not `0100`.
    pub fn try_from_raw(raw: u8) -> (r: Option<Rex>)
        ensures
            r is Some <==> raw / 16 == 4,
            r matches Some(x) ==> x.spec_byte() == raw,
    {
        if raw / 16 == 4 {
            Some(Rex(raw))
        } else {
            None
        }
    }

    pub fn byte(&self) -> (r: u8)
        ensures
            r == self.spec_byte(),
            r / 16 == 4,
    {
        proof {
            use_type_invariant(self);
        }
        self.0
    }

    pub fn w(&self) -> (r: bool)
        ensures
            r == self.spec_w(),
    {
        (self.0 / 8) % 2 == 1
    }

    pub fn r(&self) -> (r: bool)
        ensures
            r == self.spec_r(),
    {
        (self.0 / 4) % 2 == 1
    }

    pub fn x(&self) -> (r: bool)
        ensures
            r == self.spec_x(),
    {
        (self.0 / 2) % 2 == 1
    }

    pub fn b(&self) -> (r: bool)
        ensures
            r == self.spec_b(),
    {
        self.0 % 2 == 1
    }

    pub fn set_w(&mut self, flag: bool)
        ensures
            final(self).spec_byte() == rex_value(flag, old(self).spec_r(), old(self).spec_x(), old(self).spec_b()),
    {
        *self = Rex::from_flags(flag, self.r(), self.x(), self.b());
    }

    pub fn set_r(&mut self, flag: bool)
        ensures
            final(self).spec_byte() == rex_value(old(self).spec_w(), flag, old(self).spec_x(), old(self).spec_b()),
    {
        *self = Rex::from_flags(self.w(), flag, self.x(), self.b());
    }

    pub fn set_x(&mut self, flag: bool)
        ensures
            final(self).spec_byte() == rex_value(old(self).spec_w(), old(self).spec_r(), flag, old(self).spec_b()),
    {
        *self = Rex::from_flags(self.w(), self.r(), flag, self.b());
    }

    pub fn set_b(&mut self, flag: bool)
        ensures
            final(self).spec_byte() == rex_value(old(self).spec_w(), old(self).spec_r(), old(self).spec_x(), flag),
    {
        *self = Rex::from_flags(self.w(), self.r(), self.x(), flag);
    }
}

/// The ModR/M byte: mode (2 bits), reg (3 bits), rm (3 bits).
#[derive(Debug, Clone, Copy, PartialEq, Eq)]
pub struct ModRM(u8);

impl ModRM {
    /// The byte this ModR/M is written as.
    pub closed spec fn spec_byte(self) -> u8 {
        self.0
    }

    pub open spec fn spec_mode(self) -> u8 {
        hi_field(self.spec_byte())
    }

    pub open spec fn spec_reg(self) -> u8 {
        mid_field(self.spec_byte())
    }

    pub open spec fn spec_rm(self) -> u8 {
        lo_field(self.spec_byte())
    }

    /// The ModR/M with every field zero.
    pub fn new() -> (r: ModRM)
        ensures
            r.spec_byte() == 0,
    {
        ModRM(0)
    }

    /// The ModR/M with the given fields.
    pub fn from_fields(mode: u8, reg: u8, rm: u8) -> (r: ModRM)
        requires
            mode <= 0b11,
            reg <= 0b111,
            rm <= 0b111,
        ensures
            r.spec_byte() == fields_byte(mode, reg, rm),
            r.spec_mode() == mode,
            r.spec_reg() == reg,
            r.spec_rm() == rm,
    {
        proof {
            lemma_fields_byte(mode, reg, rm);
        }
        ModRM(mode * 64 + reg * 8 + rm)
    }

    pub fn from_raw(raw: u8) -> (r: ModRM)
        ensures
            r.spec_byte() == raw,
    {
        ModRM(raw)
    }

    pub fn byte(&self) -> (r: u8)
        ensures
            r == self.spec_byte(),
    {
        self.0
    }

    pub fn mode(&self) -> (r: u8)
        ensures
            r == self.spec_mode(),
            r <= 0b11,
    {
        self.0 / 64
    }

    /// Sets the 2-bit mode field, keeping reg and rm.
    pub fn set_mode(&mut self, mode: u8)
        requires
            mode <= 0b11,
        ensures
            final(self).spec_byte() == fields_byte(mode, old(self).spec_reg(), old(self).spec_rm()),
    {
        *self = ModRM::from_fields(mode, self.reg(), self.rm());
    }

    pub fn reg(&self) -> (r: u8)
        ensures
            r == self.spec_reg(),
            r <= 0b111,
    {
        (self.0 / 8) % 8
    }

    /// Sets the 3-bit reg field, keeping mode and rm.
    pub fn set_reg(&mut self, reg: u8)
        requires
            reg <= 0b111,
        ensures
            final(self).spec_byte() == fields_byte(old(self).spec_mode(), reg, old(self).spec_rm()),
    {
        *self = ModRM::from_fields(self.mode(), reg, self.rm());
    }

    pub fn rm(&self) -> (r: u8)
        ensures
            r == self.spec_rm(),
            r <= 0b111,
    {
        self.0 % 8
    }

    /// Sets the 3-bit rm field, keeping mode and reg.
    pub fn set_rm(&mut self, rm: u8)
        requires
            rm <= 0b111,
        ensures
            final(self).spec_byte() == fields_byte(old(self).spec_mode(), old(self).spec_reg(), rm),
    {
        *self = ModRM::from_fields(self.mode(), self.reg(), rm);
    }
}

/// The SIB byte: scale (2 bits, the log2 of the factor), index (3 bits), base (3 bits).
#[derive(Debug, Clone, Copy, PartialEq, Eq)]
pub struct Sib(u8);

impl Sib {
    /// The byte this SIB is written as.
    pub closed spec fn spec_byte(self) -> u8 {
        self.0
    }

    pub open spec fn spec_scale(self) -> u8 {
        hi_field(self.spec_byte())
    }

    pub open spec fn spec_index(self) -> u8 {
        mid_field(self.spec_byte())
    }

    pub open spec fn spec_base(self) -> u8 {
        lo_field(self.spec_byte())
    }

    /// The SIB with the given fields.
    pub fn new(scale: u8, index: u8, base: u8) -> (r: Sib)
        requires
            scale <= 0b11,
            index <= 0b111,
            base <= 0b111,
        ensures
            r.spec_byte() == fields_byte(scale, index, base),
            r.spec_scale() == scale,
            r.spec_index() == index,
            r.spec_base() == base,
    {
        proof {
            lemma_fields_byte(scale, index, base);
        }
        Sib(scale * 64 + index * 8 + base)
    }

    pub fn from_raw(raw: u8) -> (r: Sib)
        ensures
            r.spec_byte() == raw,
    {
        Sib(raw)
    }

    pub fn byte(&self) -> (r: u8)
        ensures
            r == self.spec_byte(),
    {
        self.0
    }

    pub fn scale(&self) -> (r: u8)
        ensures
            r == self.spec_scale(),
            r <= 0b11,
    {
        self.0 / 64
    }

    pub fn index(&self) -> (r: u8)
        ensures
            r == self.spec_index(),
            r <= 0b111,
    {
        (self.0 / 8) % 8
    }

    pub fn base(&self) -> (r: u8)
        ensures
            r == self.spec_base(),
            r <= 0b111,
    {
        self.0 % 8
    }
}

/// The bytes an optional single-byte part contributes: one where present, none otherwise.
pub open spec fn opt_byte(o: Option<u8>) -> Seq<u8> {
    match o {
        Some(b) => seq![b],
        None => seq![],
    }
}

/// The byte of an optional REX prefix.
pub open spec fn rex_byte_of(o: Option<Rex>) -> Option<u8> {
    match o {
        Some(r) => Some(r.spec_byte()),
        None => None,
    }
}

/// The byte of an optional ModR/M.
pub open spec fn mod_rm_byte_of(o: Option<ModRM>) -> Option<u8> {
    match o {
        Some(m) => Some(m.spec_byte()),
        None => None,
    }
}

/// The byte of an optional SIB.
pub open spec fn sib_byte_of(o: Option<Sib>) -> Option<u8> {
    match o {
        Some(s) => Some(s.spec_byte()),
        None => None,
    }
}

/// The longest instruction the architecture allows, in bytes.
pub const MAX_INSTRUCTION_LEN: usize = 15;

/// One instruction under assembly: each part is set on its own, and
/// `to_bytes` lays the present parts out in the architecture's order.
pub struct ByteCode {
    /// A legacy prefix (0 or 1 byte).
    pub prefix: Option<u8>,
    /// The REX prefix (0 or 1 byte).
    pub rex: Option<Rex>,
    /// The opcode (1 to 3 bytes).
    pub opcode: FlexBytes<3>,
    /// The ModR/M byte (0 or 1 byte).
    pub mod_rm: Option<ModRM>,
    /// The SIB byte (0 or 1 byte).
    pub sib: Option<Sib>,
    /// The address displacement (0 to 4 bytes).
    pub addr: FlexBytes<4>,
    /// The immediate (0 to 8 bytes).
    pub imm: FlexBytes<8>,
}

impl ByteCode {
    /// The instruction's bytes: prefix, REX, opcode, ModR/M, SIB, displacement
    /// and immediate, each where present, in that order.
    pub open spec fn spec_bytes(self) -> Seq<u8> {
        opt_byte(self.prefix) + opt_byte(rex_byte_of(self.rex)) + self.opcode@ + opt_byte(
            mod_rm_byte_of(self.mod_rm),
        ) + opt_byte(sib_byte_of(self.sib)) + self.addr@ + self.imm@
    }

    /// The sum of the lengths of the present parts.
    pub open spec fn spec_len(self) -> nat {
        (if self.prefix is Some { 1nat } else { 0 }) + (if self.rex is Some { 1nat } else { 0 })
            + self.opcode@.len() + (if self.mod_rm is Some { 1nat } else { 0 }) + (
        if self.sib is Some { 1nat } else { 0 }) + self.addr@.len() + self.imm@.len()
    }

    /// Where the REX byte stands in the instruction's bytes.
    pub open spec fn rex_offset(self) -> int {
        if self.prefix is Some { 1 } else { 0 }
    }

    /// Where the ModR/M byte stands in the instruction's bytes.
    pub open spec fn mod_rm_offset(self) -> int {
        self.rex_offset() + (if self.rex is Some { 1int } else { 0 }) + self.opcode@.len()
    }

    /// Where the SIB byte stands in the instruction's bytes.
    pub open spec fn sib_offset(self) -> int {
        self.mod_rm_offset() + (if self.mod_rm is Some { 1int } else { 0 })
    }

    /// The record with no part set but a one-byte zero opcode.
    pub fn new() -> (r: ByteCode)
        ensures
            r.prefix is None,
            r.rex is None,
            r.opcode@ == seq![0u8],
            r.mod_rm is None,
            r.sib is None,
            r.addr@ == Seq::<u8>::empty(),
            r.imm@ == Seq::<u8>::empty(),
    {
        let opcode = FlexBytes::new(1);
        let addr = FlexBytes::new(0);
        let imm = FlexBytes::new(0);
        assert(opcode@ =~= seq![0u8]);
        assert(addr@ =~= Seq::<u8>::empty());
        assert(imm@ =~= Seq::<u8>::empty());
        ByteCode { prefix: None, rex: None, opcode, mod_rm: None, sib: None, addr, imm }
    }

    /// The instruction's bytes, which must fit the architecture's length limit.
    pub fn to_bytes(&self) -> (r: FlexBytes<15>)
        requires
            self.spec_len() <= MAX_INSTRUCTION_LEN,
        ensures
            r@ == self.spec_bytes(),
    {
        proof {
            lemma_serialized_len(*self);
        }
        let mut len: usize = self.opcode.len() + self.addr.len() + self.imm.len();
        if self.prefix.is_some() {
            len = len + 1;
        }
        if self.rex.is_some() {
            len = len + 1;
        }
        if self.mod_rm.is_some() {
            len = len + 1;
        }
        if self.sib.is_some() {
            len = len + 1;
        }
        let mut out: FlexBytes<15> = FlexBytes::new(len);
        let mut pos: usize = 0;
        assert(out@.subrange(0, 0) =~= Seq::<u8>::empty());
        if let Some(prefix) = self.prefix {
            pos = append(&mut out, pos, &[prefix]);
        }
        assert(out@.subrange(0, pos as int) =~= opt_byte(self.prefix));
        if let Some(rex) = &self.rex {
            pos = append(&mut out, pos, &[rex.byte()]);
        }
        let ghost done = opt_byte(self.prefix) + opt_byte(rex_byte_of(self.rex));
        assert(out@.subrange(0, pos as int) =~= done);
        pos = append(&mut out, pos, self.opcode.bytes());
        let ghost done = done + self.opcode@;
        if let Some(mod_rm) = &self.mod_rm {
            pos = append(&mut out, pos, &[mod_rm.byte()]);
        }
        let ghost done = done + opt_byte(mod_rm_byte_of(self.mod_rm));
        assert(out@.subrange(0, pos as int) =~= done);
        if let Some(sib) = &self.sib {
            pos = append(&mut out, pos, &[sib.byte()]);
        }
        let ghost done = done + opt_byte(sib_byte_of(self.sib));
        assert(out@.subrange(0, pos as int) =~= done);
        pos = append(&mut out, pos, self.addr.bytes());
        pos = append(&mut out, pos, self.imm.bytes());
        assert(out@.subrange(0, pos as int) =~= done + self.addr@ + self.imm@);
        assert(out@ =~= self.spec_bytes());
        out
    }
}

impl Default for ByteCode {
    fn default() -> (r: ByteCode)
        ensures
            r.prefix is None,
            r.rex is None,
            r.opcode@ == seq![0u8],
            r.mod_rm is None,
            r.sib is None,
            r.addr@ == Seq::<u8>::empty(),
            r.imm@ == Seq::<u8>::empty(),
    {
        ByteCode::new()
    }
}

/// Copies `part` into `out` at `pos`, after the bytes already written before `pos`.
fn append(out: &mut FlexBytes<15>, pos: usize, part: &[u8]) -> (end: usize)
    requires
        pos + part@.len() <= old(out)@.len(),
    ensures
        end == pos + part@.len(),
        final(out)@.len() == old(out)@.len(),
        final(out)@.subrange(0, end as int) == old(out)@.subrange(0, pos as int) + part@,
{
    let end = out.write_at(pos, part);
    assert(out@.subrange(0, end as int) =~= old(out)@.subrange(0, pos as int) + part@);
    end
}

/// The bytes of a record are exactly as many as its present parts hold.
pub proof fn lemma_serialized_len(code: ByteCode)
    ensures
        code.spec_bytes().len() == code.spec_len(),
{
}

/// Reading the REX flags, the ModR/M fields and the SIB fields back from a
/// record's bytes, at the places its parts put them, gives the record's values;
/// the bytes are as many as the present parts hold.
pub proof fn lemma_fields_read_back(code: ByteCode)
    ensures
        code.spec_bytes().len() == code.spec_len(),
        code.rex matches Some(rex) ==> {
            let b = code.spec_bytes()[code.rex_offset()];
            &&& b == rex.spec_byte()
            &&& bit_set(b, 8) == rex.spec_w()
            &&& bit_set(b, 4) == rex.spec_r()
            &&& bit_set(b, 2) == rex.spec_x()
            &&& bit_set(b, 1) == rex.spec_b()
        },
        code.mod_rm matches Some(m) ==> {
            let b = code.spec_bytes()[code.mod_rm_offset()];
            &&& b == m.spec_byte()
            &&& hi_field(b) == m.spec_mode()
            &&& mid_field(b) == m.spec_reg()
            &&& lo_field(b) == m.spec_rm()
        },
        code.sib matches Some(sib) ==> {
            let b = code.spec_bytes()[code.sib_offset()];
            &&& b == sib.spec_byte()
            &&& hi_field(b) == sib.spec_scale()
            &&& mid_field(b) == sib.spec_index()
            &&& lo_field(b) == sib.spec_base()
        },
{
    let s1 = opt_byte(code.prefix) + opt_byte(rex_byte_of(code.rex));
    let s2 = s1 + code.opcode@;
    let s3 = s2 + opt_byte(mod_rm_byte_of(code.mod_rm));
    let s4 = s3 + opt_byte(sib_byte_of(code.sib));
    let s5 = s4 + code.addr@;
    let all = code.spec_bytes();
    assert(all == s5 + code.imm@);
    if let Some(rex) = code.rex {
        let i = code.rex_offset();
        assert(s1[i] == rex.spec_byte());
        assert(s2[i] == s1[i]);
        assert(s3[i] == s2[i]);
        assert(s4[i] == s3[i]);
        assert(s5[i] == s4[i]);
        assert(all[i] == s5[i]);
    }
    if let Some(m) = code.mod_rm {
        let i = code.mod_rm_offset();
        assert(s3[i] == m.spec_byte());
        assert(s4[i] == s3[i]);
        assert(s5[i] == s4[i]);
        assert(all[i] == s5[i]);
    }
    if let Some(sib) = code.sib {
        let i = code.sib_offset();
        assert(s4[i] == sib.spec_byte());
        assert(s5[i] == s4[i]);
        assert(all[i] == s5[i]);
    }
}

/// Serializing a record twice gives the same bytes: the result depends on the
/// record alone, and serializing does not change the record.
pub proof fn lemma_to_bytes_idempotent(code: ByteCode, first: FlexBytes<15>, second: FlexBytes<15>)
    requires
        first@ == code.spec_bytes(),
        second@ == code.spec_bytes(),
    ensures
        first@ == second@,
{
}

} // verus!
