//! Properties that hold of every state of the machine.

use vstd::prelude::*;
use crate::memory::{hi, lo, word_of, MemModel, MAIN_MEM_SIZE, ROM_START};
use crate::processor::{reg_index, slot, wrap, ProcView, ShouldWriteFlags, IRQ_VEC};

verus! {

/// A register write followed by a read of the same id gives the value back,
/// except for R0, which always reads as zero.
pub proof fn lemma_write_then_read_reg(p: ProcView, id: u8, v: u16)
    requires
        p.wf(),
    ensures
        p.write_reg(id, v).read_reg(id) == (if id == 0 { 0 } else { v }),
        p.write_reg_no_flags(id, v).read_reg(id) == (if id == 0 { 0 } else { v }),
{
}

proof fn lemma_word_bytes(w: u16)
    ensures
        word_of(lo(w), hi(w)) == w,
{
}

/// A 16-bit write into RAM (not at its very last byte) is read back as
/// written.
pub proof fn lemma_ram_write_read(m: MemModel, a: u16, w: u16)
    requires
        m.wf(),
        a < MAIN_MEM_SIZE - 1,
    ensures
        m.after_write(a, w).word(a) == w,
{
    lemma_word_bytes(w);
}

/// Writes at ROM addresses change nothing.
pub proof fn lemma_rom_read_only(m: MemModel, a: u16, w: u16, b: u8)
    requires
        a >= ROM_START,
    ensures
        m.after_write(a, w) == m,
        m.after_write_8(a, b) == m,
{
}

/// Packing the flags into a word and setting them from it restores all five
/// flags (and the word), while holding off flag writes.
pub proof fn lemma_flags_round_trip(p: ProcView)
    ensures
        ({
            let q = p.set_flags(p.flags_word());
            &&& q.zero == p.zero
            &&& q.negative == p.negative
            &&& q.carry == p.carry
            &&& q.interrupts == p.interrupts
            &&& q.fault == p.fault
            &&& q.flags_word() == p.flags_word()
            &&& q.swf == ShouldWriteFlags::No
        }),
{
}

/// A write queued in the delay slot is not visible at the next clock (the
/// registers then are as if it had never been queued) and is visible at the
/// one after, whatever the intermediate cycle queues itself.
pub proof fn lemma_delay_latency(p: ProcView, r: u8, v: u16, r2: u8, v2: u16)
    requires
        p.wf(),
        r != 0,
    ensures
        p.set_delay(r, v).write_delays().regs == p.write_delays().regs,
        p.set_delay(r, v).write_delays().set_delay(r2, v2).write_delays().read_reg(r) == v,
{
    let q1 = p.set_delay(r, v);
    let q2 = q1.write_delays();
    assert(q2.cursor == !p.cursor);
    assert(q2.delay_regs[slot(p.cursor)] == r);
    assert(q2.delay_vals[slot(p.cursor)] == v);
    let q3 = q2.set_delay(r2, v2);
    assert(q3.delay_regs[slot(p.cursor)] == r);
    assert(q3.delay_vals[slot(p.cursor)] == v);
    let q4 = q3.write_delays();
    assert(q4.regs == q3.regs.update(reg_index(r), v));
}

/// An interrupt request with interrupts disabled changes nothing; accepted,
/// it saves the boundary PC (less the 2 the next return adds back), jumps to
/// the IRQ vector and disables interrupts.
pub proof fn lemma_irq_gating(p: ProcView, m: MemModel)
    requires
        p.wf(),
    ensures
        !p.interrupts ==> p.irq(m) == (p, m),
        p.interrupts && p.swf == ShouldWriteFlags::Yes ==> ({
            let (q, m2) = p.irq(m);
            &&& q.pc() == m.word(IRQ_VEC)
            &&& q.iret == wrap(p.pc() - 2)
            &&& !q.interrupts
            &&& m2 == m
        }),
{
}

/// A word stored at an even RAM address lies there low byte first and reads
/// back unchanged.
pub proof fn lemma_le_store_load(m: MemModel, a: u16, w: u16)
    requires
        m.wf(),
        a < MAIN_MEM_SIZE,
        a % 2 == 0,
    ensures
        m.after_write(a, w).byte(a) == lo(w),
        m.after_write(a, w).byte((a + 1) as u16) == hi(w),
        m.after_write(a, w).word(a) == w,
{
    lemma_word_bytes(w);
}

/// The immediate-form instruction with byte `imm`, register `rd` and
/// operation `op` (0 LDI, 1 LDH, 2 ADI, 3 SBI).
pub open spec fn imm_instr(imm: u8, rd: u8, op: u16) -> u16 {
    (imm as int * 256 + rd as int * 16 + op) as u16
}

proof fn lemma_imm_decode(imm: u8, rd: u8, op: u16)
    requires
        rd < 16,
        op < 4,
    ensures
        imm_instr(imm, rd, op) & 0b1000 == 0,
        imm_instr(imm, rd, op) & 0b1100 == 0,
        (imm_instr(imm, rd, op) & 0xff00) >> 8 == imm as u16,
        imm_instr(imm, rd, op) & 0b11 == op,
        (((imm_instr(imm, rd, op) & 0xf0) >> 4) as u8) == rd,
{
    let i = imm as u16;
    let r = rd as u16;
    let x = imm_instr(imm, rd, op);
    assert(x == i * 256 + r * 16 + op);
    assert(x & 0b1000 == 0 && x & 0b1100 == 0 && (x & 0xff00) >> 8 == i && x & 0b11 == op
        && (x & 0xf0) >> 4 == r) by (bit_vector)
        requires
            x == i * 256 + r * 16 + op,
            i < 256,
            r < 16,
            op < 4,
    ;
}

/// An immediate-form instruction only runs its immediate operation.
pub proof fn lemma_execute_imm(p: ProcView, m: MemModel, imm: u8, rd: u8, op: u16)
    requires
        rd < 16,
        op < 4,
    ensures
        p.execute(m, imm_instr(imm, rd, op)) == (p.imm(imm_instr(imm, rd, op), rd), m),
        (imm_instr(imm, rd, op) & 0xff00) >> 8 == imm as u16,
        imm_instr(imm, rd, op) & 0b11 == op,
{
    reveal(ProcView::execute);
    lemma_imm_decode(imm, rd, op);
}

/// SBI followed by ADI with the same immediate restores the register; the
/// carry that SBI leaves is set exactly when no borrow occurred, and ADI
/// clears it exactly then.
pub proof fn lemma_sbi_then_adi(p: ProcView, m: MemModel, rd: u8, imm: u8)
    requires
        p.wf(),
        1 <= rd < 16,
    ensures
        ({
            let (q1, m1) = p.execute(m, imm_instr(imm, rd, 3));
            let (q2, m2) = q1.execute(m1, imm_instr(imm, rd, 2));
            &&& q2.read_reg(rd) == p.read_reg(rd)
            &&& q1.carry == (p.read_reg(rd) >= imm)
            &&& q2.carry == !q1.carry
            &&& m2 == m
        }),
{
    lemma_execute_imm(p, m, imm, rd, 3);
    let (q1, m1) = p.execute(m, imm_instr(imm, rd, 3));
    lemma_execute_imm(q1, m1, imm, rd, 2);
    let x = p.read_reg(rd);
    let y = q1.read_reg(rd);
    assert(y == wrap(x - imm));
}

} // verus!
