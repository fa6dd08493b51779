//! The processor: sixteen 16-bit registers, five flags, a two-deep
//! delay-slot write-back queue and the instruction set.
//!
//! Conventions where encodings leave a choice:
//! - the stack grows toward lower addresses: PUSH stores at the pointer and
//!   then steps it down by two, POP steps it up by two and reads there;
//! - loads read from `ra + ro`, stores write at `ra` alone;
//! - subtraction computes `rd - rs`, shifts shift `rd` by `rs` (modulo 16);
//! - the NMI entry lands on its vector less 2, for the increment that ends
//!   the cycle; an IRQ, taken between cycles, lands on its vector exactly;
//! - delayed writes (loads, POP, jump targets) land without touching flags.

use vstd::prelude::*;
use crate::memory::{hi, lo, word_of, MemModel, Memory};

verus! {

/// The link register.
pub const LINK_REG: usize = 14;
/// The program counter.
pub const PC: usize = 15;

/// Where the IRQ handler's address is stored.
pub const IRQ_VEC: u16 = 0xfffa;
/// Where the NMI handler's address is stored.
pub const NMI_VEC: u16 = 0xfffc;
/// Where the reset address is stored.
pub const RESET_VEC: u16 = 0xfffe;

/// Whether instructions may update `zero` and `negative` (and whether an IRQ
/// may be taken). After flags are restored it takes three instruction cycles
/// to come back to `Yes`.
#[derive(Copy, Clone, PartialEq, Eq, Structural, Debug)]
pub enum ShouldWriteFlags {
    No,
    No2,
    No3,
    Yes,
}

impl ShouldWriteFlags {
    pub open spec fn next(self) -> ShouldWriteFlags {
        match self {
            ShouldWriteFlags::No => ShouldWriteFlags::No2,
            ShouldWriteFlags::No2 => ShouldWriteFlags::No3,
            ShouldWriteFlags::No3 => ShouldWriteFlags::Yes,
            ShouldWriteFlags::Yes => ShouldWriteFlags::Yes,
        }
    }

    /// One instruction cycle: `No -> No2 -> No3 -> Yes -> Yes`.
    pub fn cycle(self) -> (r: Self)
        ensures
            r == self.next(),
    {
        match self {
            Self::No => Self::No2,
            Self::No2 => Self::No3,
            Self::No3 => Self::Yes,
            Self::Yes => Self::Yes,
        }
    }
}

/// The register slot that an id addresses: its low four bits.
pub open spec fn reg_index(id: u8) -> int {
    id as int % 16
}

/// The delay slot that a cursor value selects.
pub open spec fn slot(c: bool) -> int {
    if c { 1 } else { 0 }
}

/// `x` reduced into the range of a word.
pub open spec fn wrap(x: int) -> u16 {
    (x % 0x10000) as u16
}

/// Sign extension of the low byte of `v`.
pub open spec fn sext8(v: u16) -> u16 {
    if v % 256 < 0x80 { (v % 256) as u16 } else { (v % 256 + 0xff00) as u16 }
}

/// Bits 12..15 of an instruction.
pub open spec fn field_hi(instr: u16) -> u8 {
    ((instr & 0xf000) >> 12) as u8
}

/// Bits 8..11 of an instruction.
pub open spec fn field_mid(instr: u16) -> u8 {
    ((instr & 0x0f00) >> 8) as u8
}

/// Bits 4..7 of an instruction.
pub open spec fn field_rd(instr: u16) -> u8 {
    ((instr & 0xf0) >> 4) as u8
}

/// A word with its two bytes exchanged.
pub open spec fn swap_bytes(w: u16) -> u16 {
    word_of(hi(w), lo(w))
}

/// Arithmetic shift right of a word read as signed.
pub open spec fn sar(v: u16, sh: u16) -> u16 {
    ((v as i16) >> sh) as u16
}

/// Addition (ops 0, 1) and subtraction (ops 2, 3) of `lhs` and `rhs`, with
/// the carry in used by ops 1 and 3; the flag out is the carry of an
/// addition and the absence of borrow of a subtraction.
pub open spec fn add_sub(op: u16, lhs: u16, rhs: u16, carry: bool) -> (u16, bool) {
    let cin: int = if op & 1 != 0 && carry { 1 } else { 0 };
    if op & 0b10 == 0 {
        let s = lhs + rhs + cin;
        (wrap(s), s > 0xffff)
    } else {
        let bin: int = if op & 1 != 0 && !carry { 1 } else { 0 };
        let d = lhs - rhs - bin;
        (wrap(d), d >= 0)
    }
}

/// Abstract processor state.
#[verifier::ext_equal]
pub struct ProcView {
    pub regs: Seq<u16>,
    pub zero: bool,
    pub negative: bool,
    pub carry: bool,
    pub interrupts: bool,
    pub iret: u16,
    pub fault: bool,
    pub swf: ShouldWriteFlags,
    pub delay_regs: Seq<u8>,
    pub delay_vals: Seq<u16>,
    pub cursor: bool,
}

impl ProcView {
    pub open spec fn wf(self) -> bool {
        &&& self.regs.len() == 16
        &&& self.delay_regs.len() == 2
        &&& self.delay_vals.len() == 2
    }

    pub open spec fn pc(self) -> u16 {
        self.regs[PC as int]
    }

    /// R0 reads as zero; other ids address their slot.
    pub open spec fn read_reg(self, id: u8) -> u16 {
        if id == 0 { 0 } else { self.regs[reg_index(id)] }
    }

    /// A register store that leaves the flags alone.
    pub open spec fn write_reg_no_flags(self, id: u8, v: u16) -> ProcView {
        ProcView { regs: self.regs.update(reg_index(id), v), ..self }
    }

    /// A register store that, while flag writes are allowed, sets `zero` and
    /// `negative` from the value.
    pub open spec fn write_reg(self, id: u8, v: u16) -> ProcView {
        let q = self.write_reg_no_flags(id, v);
        if self.swf == ShouldWriteFlags::Yes {
            ProcView { zero: v == 0, negative: v >= 0x8000, ..q }
        } else {
            q
        }
    }

    pub open spec fn with_pc(self, v: u16) -> ProcView {
        ProcView { regs: self.regs.update(PC as int, v), ..self }
    }

    /// The flags word: bit 0 zero, 1 negative, 2 carry, 3 interrupts, 4 fault.
    pub open spec fn flags_word(self) -> u16 {
        ((if self.zero { 1int } else { 0 }) + (if self.negative { 2int } else { 0 }) + (if self.carry {
            4int
        } else {
            0
        }) + (if self.interrupts { 8int } else { 0 }) + (if self.fault { 16int } else { 0 })) as u16
    }

    /// Flags taken from a word; flag writes are then held off.
    pub open spec fn set_flags(self, f: u16) -> ProcView {
        ProcView {
            zero: f % 2 == 1,
            negative: (f / 2) % 2 == 1,
            carry: (f / 4) % 2 == 1,
            interrupts: (f / 8) % 2 == 1,
            fault: (f / 16) % 2 == 1,
            swf: ShouldWriteFlags::No,
            ..self
        }
    }

    /// Queues a write of `v` to register `r` in the slot under the cursor.
    pub open spec fn set_delay(self, r: u8, v: u16) -> ProcView {
        ProcView {
            delay_regs: self.delay_regs.update(slot(self.cursor), r),
            delay_vals: self.delay_vals.update(slot(self.cursor), v),
            ..self
        }
    }

    /// Flips the cursor, commits the slot it now selects (unless it targets
    /// R0) and clears that slot's target.
    pub open spec fn write_delays(self) -> ProcView {
        let c = !self.cursor;
        let s = slot(c);
        let r = self.delay_regs[s];
        let q = if r == 0 { self } else { self.write_reg_no_flags(r, self.delay_vals[s]) };
        ProcView { cursor: c, delay_regs: q.delay_regs.update(s, 0), ..q }
    }

    /// Reset: the program counter is loaded from `RESET_VEC`.
    pub open spec fn reset(self, m: MemModel) -> ProcView {
        self.with_pc(m.word(RESET_VEC))
    }

    /// Non-maskable interrupt entry (also the software `INT`): the current
    /// PC is saved, and execution continues at the NMI vector (2 less, for
    /// the increment that ends the cycle).
    pub open spec fn nmi(self, m: MemModel) -> (ProcView, MemModel) {
        let q = self.with_pc(wrap(m.word(NMI_VEC) - 2));
        (ProcView { iret: self.pc(), interrupts: false, ..q }, m.after_read(NMI_VEC))
    }

    /// Whether a maskable interrupt would be taken now.
    pub open spec fn irq_accepted(self) -> bool {
        self.interrupts && self.swf == ShouldWriteFlags::Yes
    }

    /// Maskable interrupt request, seen at an instruction boundary: taken
    /// only while interrupts are enabled and flag writes allowed.
    pub open spec fn irq(self, m: MemModel) -> (ProcView, MemModel) {
        if self.irq_accepted() {
            let q = self.with_pc(m.word(IRQ_VEC));
            (ProcView { iret: wrap(self.pc() - 2), interrupts: false, ..q }, m.after_read(IRQ_VEC))
        } else {
            (self, m)
        }
    }

    /// Whether the jump condition in bits 4..6 holds.
    pub open spec fn jump_taken(self, instr: u16) -> bool {
        let c = (instr & 0b111_0000) >> 4;
        if c == 0 {
            true
        } else if c == 1 {
            self.zero
        } else if c == 2 {
            !self.zero
        } else if c == 3 {
            self.negative
        } else {
            false
        }
    }

    /// Register jump: when taken, `rl` receives PC + 2 and the PC receives
    /// `ra` through the delay queue.
    pub open spec fn jump(self, instr: u16, ra: u8, rl: u8) -> ProcView {
        if self.jump_taken(instr) {
            let q = self.write_reg(rl, wrap(self.pc() + 2));
            q.set_delay(PC as u8, q.read_reg(ra))
        } else {
            self
        }
    }

    /// Arithmetic and logic on `rd` with `rs`, operation in bits 4..7.
    pub open spec fn arithmetic(self, instr: u16, rs: u8, rd: u8) -> ProcView {
        let src = self.read_reg(rs);
        let dest = self.read_reg(rd);
        let op = (instr & 0xf0) >> 4;
        let sh = src & 15;
        if op <= 3 {
            let (v, c) = add_sub(op, dest, src, self.carry);
            ProcView { carry: c, ..self }.write_reg(rd, v)
        } else if op == 4 {
            self.write_reg(rd, src & dest)
        } else if op == 5 {
            self.write_reg(rd, !dest)
        } else if op == 6 {
            self.write_reg(rd, src | dest)
        } else if op == 7 {
            self.write_reg(rd, src ^ dest)
        } else if op == 8 || op == 0xa || op == 0xc {
            self.write_reg(rd, dest << sh)
        } else if op == 9 || op == 0xd {
            self.write_reg(rd, dest >> sh)
        } else if op == 0xb {
            self.write_reg(rd, sar(dest, sh))
        } else if op == 0xe {
            self.write_reg(rd, self.flags_word())
        } else {
            self.set_flags(src).write_reg(rd, dest)
        }
    }

    /// Push: `val` is stored at the address in `rs`, then `rs` steps down by
    /// two (the stack grows toward lower addresses).
    pub open spec fn push(self, rs: u8, val: u16, m: MemModel) -> (ProcView, MemModel) {
        let ptr = self.read_reg(rs);
        (self.write_reg_no_flags(rs, wrap(ptr - 2)), m.after_write(ptr, val))
    }

    /// Pop: `rs` steps up by two, and the word there is the value popped.
    pub open spec fn pop(self, rs: u8, m: MemModel) -> (ProcView, MemModel, u16) {
        let ptr = wrap(self.read_reg(rs) + 2);
        (self.write_reg_no_flags(rs, ptr), m.after_read(ptr), m.word(ptr))
    }

    /// PUSH, POP (through the delay queue), MOV and MSX, by bits 4..5.
    pub open spec fn movement(self, instr: u16, rs: u8, rd: u8, m: MemModel) -> (ProcView, MemModel) {
        let k = (instr & 0b11_0000) >> 4;
        if k == 0 {
            self.push(rs, self.read_reg(rd), m)
        } else if k == 1 {
            let (q, m2, v) = self.pop(rs, m);
            (q.set_delay(rd, v), m2)
        } else if k == 2 {
            (self.write_reg(rd, self.read_reg(rs)), m)
        } else {
            (self.write_reg(rd, sext8(self.read_reg(rs))), m)
        }
    }

    /// PSR, IRET, flags to `r2`, `r1` to flags, by bits 4..5.
    pub open spec fn misc(self, instr: u16, r1: u8, r2: u8, m: MemModel) -> (ProcView, MemModel) {
        let k = (instr & 0b11_0000) >> 4;
        if k == 0 {
            self.push(r1, self.iret, m)
        } else if k == 1 {
            let (q, m2, v) = self.pop(r1, m);
            (ProcView { interrupts: true, ..q.with_pc(v) }, m2)
        } else if k == 2 {
            (self.write_reg(r2, self.flags_word()), m)
        } else {
            (self.set_flags(self.read_reg(r1)), m)
        }
    }

    /// Load (through the delay queue, from `ra + ro`) or store (at `ra`),
    /// 16-bit or, with bit 1 set, 8-bit.
    pub open spec fn ld_st(self, m: MemModel, instr: u16, ra: u8, ro: u8, rd: u8) -> (ProcView, MemModel) {
        let base = self.read_reg(ra);
        let ea = wrap(base + self.read_reg(ro));
        if instr & 0b10 == 0 {
            if instr & 1 == 0 {
                (self.set_delay(rd, m.word(ea)), m.after_read(ea))
            } else {
                (self, m.after_write(base, self.read_reg(rd)))
            }
        } else {
            if instr & 1 == 0 {
                (self.set_delay(rd, m.byte(ea) as u16), m.after_read(ea))
            } else {
                (self, m.after_write_8(base, lo(self.read_reg(rd))))
            }
        }
    }

    /// The signed offset of a relative jump: bits 4..15, times two, in
    /// excess-4096 form.
    pub open spec fn rjmp_offset(instr: u16) -> int {
        ((instr & 0xfff0) >> 3) - 0x1000
    }

    /// Relative jump (always, always with link, if zero, if negative), the
    /// target going through the delay queue.
    pub open spec fn rjmp(self, instr: u16) -> ProcView {
        let k = instr & 0b11;
        let taken = if k == 0 || k == 1 { true } else if k == 2 { self.zero } else { self.negative };
        if taken {
            let target = wrap(self.pc() + Self::rjmp_offset(instr));
            let q = if k == 1 {
                ProcView { regs: self.regs.update(LINK_REG as int, wrap(self.pc() + 2)), ..self }
            } else {
                self
            };
            q.set_delay(PC as u8, target)
        } else {
            self
        }
    }

    /// Immediate operations on `rd` with the byte in bits 8..15: LDI
    /// (sign-extended), LDH, ADI, SBI.
    pub open spec fn imm(self, instr: u16, rd: u8) -> ProcView {
        let v = (instr & 0xff00) >> 8;
        let k = instr & 0b11;
        let old = self.read_reg(rd);
        if k == 0 {
            self.write_reg(rd, sext8(v))
        } else if k == 1 {
            self.write_reg(rd, (old & 0xff) | (instr & 0xff00))
        } else if k == 2 {
            ProcView { carry: old + v > 0xffff, ..self }.write_reg(rd, wrap(old + v))
        } else {
            ProcView { carry: old >= v, ..self }.write_reg(rd, wrap(old - v))
        }
    }

    /// Instructions whose bit 3 is clear, and relative jumps (bits 2..3 set).
    pub open spec fn short_op(self, m: MemModel, instr: u16) -> (ProcView, MemModel) {
        let rd = field_rd(instr);
        if instr & 0b1100 == 0b0100 {
            self.ld_st(m, instr, field_hi(instr), field_mid(instr), rd)
        } else if instr & 0b1100 == 0b1100 {
            (self.rjmp(instr), m)
        } else {
            (self.imm(instr, rd), m)
        }
    }

    /// Executes one decoded instruction (no fetch, no PC increment).
    #[verifier::opaque]
    pub open spec fn execute(self, m: MemModel, instr: u16) -> (ProcView, MemModel) {
        if instr & 0b1000 == 0 || instr & 0b1100 == 0b1100 {
            self.short_op(m, instr)
        } else {
            let r1 = field_hi(instr);
            let r2 = field_mid(instr);
            if instr & 0xf == 0x8 {
                let k = (instr & 0b1100_0000) >> 6;
                if k == 0 {
                    (self.jump(instr, r1, r2), m)
                } else if k == 1 {
                    self.misc(instr, r1, r2, m)
                } else if k == 2 {
                    self.movement(instr, r1, r2, m)
                } else if instr & 0xf0 == 0xc0 {
                    self.nmi(m)
                } else {
                    (self, m)
                }
            } else if instr & 0xf == 0x9 {
                (self.arithmetic(instr, r1, r2), m)
            } else {
                (self, m)
            }
        }
    }

    /// The instruction at the PC: the word is fetched big-endian.
    pub open spec fn fetch(self, m: MemModel) -> u16 {
        swap_bytes(m.word(self.pc()))
    }

    /// One clock: delayed write-back, fetch, flag-window step, execute, PC += 2.
    pub open spec fn clock(self, m: MemModel) -> (ProcView, MemModel) {
        let q = self.write_delays();
        let instr = q.fetch(m);
        let q2 = ProcView { swf: q.swf.next(), ..q };
        let (q3, m3) = q2.execute(m.after_read(q.pc()), instr);
        (q3.with_pc(wrap(q3.pc() + 2)), m3)
    }
}

/// The processor.
pub struct Processor {
    pub registers: [u16; 16],
    pub zero: bool,
    pub negative: bool,
    pub carry: bool,
    pub interrupts: bool,
    pub iret: u16,
    pub fault: bool,
    pub should_write_flags: ShouldWriteFlags,
    /// Targets of the two pending delayed writes (0: none).
    pub delay_regs: [u8; 2],
    /// Values of the two pending delayed writes.
    pub delay_vals: [u16; 2],
    pub cursor: bool,
}

impl View for Processor {
    type V = ProcView;

    open spec fn view(&self) -> ProcView {
        ProcView {
            regs: self.registers@,
            zero: self.zero,
            negative: self.negative,
            carry: self.carry,
            interrupts: self.interrupts,
            iret: self.iret,
            fault: self.fault,
            swf: self.should_write_flags,
            delay_regs: self.delay_regs@,
            delay_vals: self.delay_vals@,
            cursor: self.cursor,
        }
    }
}

impl Processor {
    /// All registers and flags clear, nothing queued, flag writes allowed.
    pub fn new() -> (r: Processor)
        ensures
            r@.wf(),
            forall|i: int| 0 <= i < 16 ==> r@.regs[i] == 0,
            !r.zero && !r.negative && !r.carry && !r.interrupts && !r.fault,
            r.iret == 0,
            r.should_write_flags == ShouldWriteFlags::Yes,
            r.delay_regs@ == seq![0u8, 0u8],
            r.delay_vals@ == seq![0u16, 0u16],
            !r.cursor,
    {
        let r = Processor {
            registers: [0u16; 16],
            zero: false,
            negative: false,
            carry: false,
            interrupts: false,
            iret: 0,
            fault: false,
            should_write_flags: ShouldWriteFlags::Yes,
            delay_regs: [0u8; 2],
            delay_vals: [0u16; 2],
            cursor: false,
        };
        assert(r.delay_regs@ =~= seq![0u8, 0u8]);
        assert(r.delay_vals@ =~= seq![0u16, 0u16]);
        r
    }

    pub fn get_flags(&self) -> (r: u16)
        ensures
            r == self@.flags_word(),
    {
        let mut ret: u16 = 0;
        if self.zero {
            ret = ret + 1;
        }
        if self.negative {
            ret = ret + 2;
        }
        if self.carry {
            ret = ret + 4;
        }
        if self.interrupts {
            ret = ret + 8;
        }
        if self.fault {
            ret = ret + 16;
        }
        ret
    }

    pub fn set_flags(&mut self, f: u16)
        ensures
            final(self)@ == old(self)@.set_flags(f),
    {
        assert((f & 0b1 != 0) == (f % 2 == 1)) by (bit_vector);
        assert((f & 0b10 != 0) == ((f / 2) % 2 == 1)) by (bit_vector);
        assert((f & 0b100 != 0) == ((f / 4) % 2 == 1)) by (bit_vector);
        assert((f & 0b1000 != 0) == ((f / 8) % 2 == 1)) by (bit_vector);
        assert((f & 0b1_0000 != 0) == ((f / 16) % 2 == 1)) by (bit_vector);
        self.zero = f & 0b1 != 0;
        self.negative = f & 0b10 != 0;
        self.carry = f & 0b100 != 0;
        self.interrupts = f & 0b1000 != 0;
        self.fault = f & 0b1_0000 != 0;
        self.should_write_flags = ShouldWriteFlags::No;
    }

    pub fn read_reg(&self, id: u8) -> (r: u16)
        ensures
            r == self@.read_reg(id),
    {
        if id == 0 {
            0
        } else {
            assert(id & 0xf == id % 16) by (bit_vector);
            self.registers[(id & 0xf) as usize]
        }
    }

    pub fn write_reg(&mut self, id: u8, val: u16)
        ensures
            final(self)@ == old(self)@.write_reg(id, val),
    {
        self.write_reg_no_flags(id, val);
        if self.should_write_flags == ShouldWriteFlags::Yes {
            self.zero = val == 0;
            self.negative = val >= 0x8000;
        }
    }

    pub fn write_reg_no_flags(&mut self, id: u8, val: u16)
        ensures
            final(self)@ == old(self)@.write_reg_no_flags(id, val),
    {
        assert(id & 0xf == id % 16) by (bit_vector);
        self.registers[(id & 0xf) as usize] = val;
    }

    /// Queues `val` for register `reg`; it lands at the start of the second
    /// clock from now.
    pub fn set_delay(&mut self, reg: u8, val: u16)
        ensures
            final(self)@ == old(self)@.set_delay(reg, val),
    {
        let s: usize = if self.cursor { 1 } else { 0 };
        self.delay_regs[s] = reg;
        self.delay_vals[s] = val;
    }

    /// Commits the delayed write that is due at the start of this clock.
    pub fn write_delays(&mut self)
        ensures
            final(self)@ == old(self)@.write_delays(),
    {
        self.cursor = !self.cursor;
        let s: usize = if self.cursor { 1 } else { 0 };
        let r = self.delay_regs[s];
        if r != 0 {
            let v = self.delay_vals[s];
            self.write_reg_no_flags(r, v);
        }
        self.delay_regs[s] = 0;
    }
    /// Loads the program counter from `RESET_VEC`; all else keeps its state.
    pub fn reset<M: Memory>(&mut self, mem: &mut M)
        requires
            old(mem).model().wf(),
        ensures
            final(mem).model().wf(),
            final(self)@ == old(self)@.reset(old(mem).model()),
            final(mem).model() == old(mem).model(),
    {
        let pc = le_word(mem.read(RESET_VEC));
        self.registers[PC] = pc;
    }

    /// One instruction: delayed write-back, fetch, execute, PC += 2.
    #[verifier::rlimit(40)]
    pub fn clock<M: Memory>(&mut self, mem: &mut M)
        requires
            old(mem).model().wf(),
        ensures
            final(mem).model().wf(),
            (final(self)@, final(mem).model()) == old(self)@.clock(old(mem).model()),
    {
        self.write_delays();
        let ghost fetched = self@;
        let bytes = mem.read(self.registers[PC]);
        let instr = be_word(bytes);
        proof {
            lemma_word_of_bytes(bytes[0], bytes[1]);
        }
        assert(instr == fetched.fetch(old(mem).model()));
        self.should_write_flags = self.should_write_flags.cycle();
        let ghost decoded = self@;
        assert(decoded == ProcView { swf: fetched.swf.next(), ..fetched });
        self.do_instruction(instr, mem);
        self.registers[PC] = self.registers[PC].wrapping_add(2);
    }

    #[verifier::rlimit(40)]
    fn do_instruction<M: Memory>(&mut self, instr: u16, mem: &mut M)
        requires
            old(mem).model().wf(),
        ensures
            final(mem).model().wf(),
            (final(self)@, final(mem).model()) == old(self)@.execute(old(mem).model(), instr),
    {
        reveal(ProcView::execute);
        if instr & 0b1000 == 0 || instr & 0b1100 == 0b1100 {
            self.short_op(mem, instr)
        } else {
            let r1 = ((instr & 0xf000) >> 12) as u8;
            let r2 = ((instr & 0x0f00) >> 8) as u8;
            let family = instr & 0xf;
            if family == 0x8 {
                let k = (instr & 0b1100_0000) >> 6;
                if k == 0 {
                    self.jump(instr, r1, r2)
                } else if k == 1 {
                    self.misc(instr, r1, r2, mem)
                } else if k == 2 {
                    self.movement(instr, r1, r2, mem)
                } else if instr & 0xf0 == 0xc0 {
                    self.nmi(mem)
                }
            } else if family == 0x9 {
                self.arithmetic(instr, r1, r2)
            }
        }
    }

    fn misc<M: Memory>(&mut self, instr: u16, r1: u8, r2: u8, mem: &mut M)
        requires
            old(mem).model().wf(),
        ensures
            final(mem).model().wf(),
            (final(self)@, final(mem).model()) == old(self)@.misc(instr, r1, r2, old(mem).model()),
    {
        let k = (instr & 0b11_0000) >> 4;
        if k == 0 {
            let iret = self.iret;
            self.push(r1, iret, mem)
        } else if k == 1 {
            let iret = self.pop(r1, mem);
            self.registers[PC] = iret;
            self.interrupts = true;
        } else if k == 2 {
            let f = self.get_flags();
            self.write_reg(r2, f)
        } else {
            let f = self.read_reg(r1);
            self.set_flags(f);
        }
    }

    /// Non-maskable interrupt entry (the software `INT` instruction).
    fn nmi<M: Memory>(&mut self, mem: &mut M)
        requires
            old(mem).model().wf(),
        ensures
            final(mem).model().wf(),
            (final(self)@, final(mem).model()) == old(self)@.nmi(old(mem).model()),
    {
        self.iret = self.registers[PC];
        let new_addr = le_word(mem.read(NMI_VEC)).wrapping_sub(2);
        self.registers[PC] = new_addr;
        self.interrupts = false;
    }

    /// Maskable interrupt request from the bus, at an instruction boundary.
    /// It is taken only while interrupts are enabled and flag writes are
    /// allowed; otherwise nothing changes.
    pub fn irq<M: Memory>(&mut self, mem: &mut M)
        requires
            old(mem).model().wf(),
        ensures
            final(mem).model().wf(),
            (final(self)@, final(mem).model()) == old(self)@.irq(old(mem).model()),
    {
        if self.interrupts && self.should_write_flags == ShouldWriteFlags::Yes {
            self.iret = self.registers[PC].wrapping_sub(2);
            let new_addr = le_word(mem.read(IRQ_VEC));
            self.registers[PC] = new_addr;
            self.interrupts = false;
        }
    }

    fn jump(&mut self, instr: u16, ra: u8, rl: u8)
        ensures
            final(self)@ == old(self)@.jump(instr, ra, rl),
    {
        let c = (instr & 0b111_0000) >> 4;
        let taken = if c == 0 {
            true
        } else if c == 1 {
            self.zero
        } else if c == 2 {
            !self.zero
        } else if c == 3 {
            self.negative
        } else {
            false
        };
        if taken {
            let link = self.registers[PC].wrapping_add(2);
            self.write_reg(rl, link);
            let address = self.read_reg(ra);
            self.set_delay(PC as u8, address);
        }
    }

    fn arithmetic(&mut self, instr: u16, rs: u8, rd: u8)
        ensures
            final(self)@ == old(self)@.arithmetic(instr, rs, rd),
    {
        let src = self.read_reg(rs);
        let dest = self.read_reg(rd);
        let op = (instr & 0xf0) >> 4;
        let sh = src & 15;
        assert(sh < 16) by (bit_vector)
            requires
                sh == src & 15,
        ;
        let result = if op <= 3 {
            let (val, carry) = self.add_sub(op, dest, src);
            self.carry = carry;
            val
        } else if op == 4 {
            src & dest
        } else if op == 5 {
            !dest
        } else if op == 6 {
            src | dest
        } else if op == 7 {
            src ^ dest
        } else if op == 8 || op == 0xa || op == 0xc {
            dest << sh
        } else if op == 9 || op == 0xd {
            dest >> sh
        } else if op == 0xb {
            ((dest as i16) >> sh) as u16
        } else if op == 0xe {
            self.get_flags()
        } else {
            self.set_flags(src);
            dest
        };
        self.write_reg(rd, result)
    }

    fn push<M: Memory>(&mut self, rs: u8, val: u16, mem: &mut M)
        requires
            old(mem).model().wf(),
        ensures
            final(mem).model().wf(),
            (final(self)@, final(mem).model()) == old(self)@.push(rs, val, old(mem).model()),
    {
        let ptr = self.read_reg(rs);
        mem.write(ptr, le_bytes(val));
        self.write_reg_no_flags(rs, ptr.wrapping_sub(2))
    }

    fn pop<M: Memory>(&mut self, rs: u8, mem: &mut M) -> (r: u16)
        requires
            old(mem).model().wf(),
        ensures
            final(mem).model().wf(),
            (final(self)@, final(mem).model(), r) == old(self)@.pop(rs, old(mem).model()),
    {
        let ptr = self.read_reg(rs).wrapping_add(2);
        let val = le_word(mem.read(ptr));
        self.write_reg_no_flags(rs, ptr);
        val
    }

    fn movement<M: Memory>(&mut self, instr: u16, rs: u8, rd: u8, mem: &mut M)
        requires
            old(mem).model().wf(),
        ensures
            final(mem).model().wf(),
            (final(self)@, final(mem).model()) == old(self)@.movement(instr, rs, rd, old(mem).model()),
    {
        let k = (instr & 0b0011_0000) >> 4;
        if k == 0 {
            let val = self.read_reg(rd);
            self.push(rs, val, mem)
        } else if k == 1 {
            let val = self.pop(rs, mem);
            self.set_delay(rd, val);
        } else if k == 2 {
            let val = self.read_reg(rs);
            self.write_reg(rd, val)
        } else {
            let val = sign_extend_byte(self.read_reg(rs));
            self.write_reg(rd, val)
        }
    }

    /// Addition or subtraction for the arithmetic ops 0 to 3.
    fn add_sub(&self, op: u16, lhs: u16, rhs: u16) -> (r: (u16, bool))
        ensures
            r == add_sub(op, lhs, rhs, self.carry),
    {
        let with_carry = (op & 1) != 0 && self.carry;
        if op & 0b10 == 0 {
            let s: u32 = lhs as u32 + rhs as u32 + if with_carry { 1u32 } else { 0u32 };
            ((s % 0x10000) as u16, s > 0xffff)
        } else {
            let borrow: i32 = if (op & 1) != 0 && !self.carry { 1 } else { 0 };
            let d: i32 = lhs as i32 - rhs as i32 - borrow;
            if d >= 0 {
                (d as u16, true)
            } else {
                ((d + 0x10000) as u16, false)
            }
        }
    }

    fn ld_st<M: Memory>(&mut self, mem: &mut M, instr: u16, ra: u8, ro: u8, rd: u8)
        requires
            old(mem).model().wf(),
        ensures
            final(mem).model().wf(),
            (final(self)@, final(mem).model()) == old(self)@.ld_st(old(mem).model(), instr, ra, ro, rd),
    {
        let addr = self.read_reg(ra);
        let offset = self.read_reg(ro);
        let eaddr = addr.wrapping_add(offset);
        if instr & 0b10 == 0 {
            if instr & 1 == 0 {
                let val = le_word(mem.read(eaddr));
                self.set_delay(rd, val)
            } else {
                let v = self.read_reg(rd);
                mem.write(addr, le_bytes(v))
            }
        } else {
            if instr & 1 == 0 {
                let val = mem.read_8(eaddr) as u16;
                self.set_delay(rd, val)
            } else {
                let v = self.read_reg(rd);
                mem.write_8(addr, (v % 256) as u8)
            }
        }
    }

    fn short_op<M: Memory>(&mut self, mem: &mut M, instr: u16)
        requires
            old(mem).model().wf(),
        ensures
            final(mem).model().wf(),
            (final(self)@, final(mem).model()) == old(self)@.short_op(old(mem).model(), instr),
    {
        let rd = ((instr & 0xf0) >> 4) as u8;
        let group = instr & 0b1100;
        if group == 0b0100 {
            let ra = ((instr & 0xf000) >> 12) as u8;
            let ro = ((instr & 0x0f00) >> 8) as u8;
            self.ld_st(mem, instr, ra, ro, rd)
        } else if group == 0b1100 {
            self.rjmp(instr)
        } else {
            self.imm(instr, rd)
        }
    }

    /// Relative jump and jump-and-link.
    fn rjmp(&mut self, instr: u16)
        ensures
            final(self)@ == old(self)@.rjmp(instr),
    {
        let k = instr & 0b11;
        let taken = if k == 0 || k == 1 {
            true
        } else if k == 2 {
            self.zero
        } else {
            self.negative
        };
        if taken {
            let offset_ek = (instr & 0xfff0) >> 3;
            let pc = self.registers[PC];
            let new_pc = pc.wrapping_add(offset_ek).wrapping_sub(0x1000);
            assert(new_pc == wrap(pc + ProcView::rjmp_offset(instr)));
            if k == 1 {
                self.registers[LINK_REG] = pc.wrapping_add(2);
            }
            self.set_delay(PC as u8, new_pc);
        }
    }

    /// Immediate-to-register operations.
    fn imm(&mut self, instr: u16, rd: u8)
        ensures
            final(self)@ == old(self)@.imm(instr, rd),
    {
        let v = (instr & 0xff00) >> 8;
        let k = instr & 0b11;
        let old = self.read_reg(rd);
        let val = if k == 0 {
            sign_extend_byte(v)
        } else if k == 1 {
            (old & 0xff) | (instr & 0xff00)
        } else if k == 2 {
            let s: u32 = old as u32 + v as u32;
            self.carry = s > 0xffff;
            (s % 0x10000) as u16
        } else {
            self.carry = old >= v;
            old.wrapping_sub(v)
        };
        self.write_reg(rd, val)
    }
}

proof fn lemma_word_of_bytes(l: u8, h: u8)
    ensures
        lo(word_of(l, h)) == l,
        hi(word_of(l, h)) == h,
{
}

/// Decodes two bytes in bus (little-endian) order.
fn le_word(b: [u8; 2]) -> (r: u16)
    ensures
        r == word_of(b[0], b[1]),
{
    b[0] as u16 + 256 * (b[1] as u16)
}

/// Decodes two bytes in fetch (big-endian) order.
fn be_word(b: [u8; 2]) -> (r: u16)
    ensures
        r == word_of(b[1], b[0]),
{
    256 * (b[0] as u16) + b[1] as u16
}

/// Encodes a word in bus (little-endian) order.
fn le_bytes(v: u16) -> (r: [u8; 2])
    ensures
        word_of(r[0], r[1]) == v,
        r[0] == lo(v),
        r[1] == hi(v),
{
    [(v % 256) as u8, (v / 256) as u8]
}

fn sign_extend_byte(v: u16) -> (r: u16)
    ensures
        r == sext8(v),
{
    let b = v % 256;
    if b < 0x80 {
        b
    } else {
        b + 0xff00
    }
}

} // verus!
