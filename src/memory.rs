//! The bus model: what the processor sees of memory, and the interface it uses.

use vstd::prelude::*;

verus! {

/// Size of RAM in bytes (`0x0000..0x8000`).
pub const MAIN_MEM_SIZE: usize = 0x8000;
/// First address of ROM.
pub const ROM_START: usize = 0xf000;
/// Size of ROM in bytes (`0xF000..0x10000`).
pub const ROM_SIZE: usize = 0x1000;
/// Write: transmit the low byte to the host.
pub const SERIAL_TX: usize = 0xe000;
/// Read: next received byte, or `0xFFFF` when none is waiting.
pub const SERIAL_RX: usize = 0xe002;
/// Any write requests termination.
pub const EXIT: usize = 0xe100;
/// How many received bytes the serial FIFO holds.
pub const SERIAL_CAPACITY: usize = 16;
/// The serial device raises its interrupt once this many bytes wait.
pub const SERIAL_BATCH: usize = 4;
/// ... or once the first waiting byte has waited this many cycles.
pub const SERIAL_LATENCY: usize = 16;

/// The byte of lower significance of a word.
pub open spec fn lo(w: u16) -> u8 {
    (w % 256) as u8
}

/// The byte of higher significance of a word.
pub open spec fn hi(w: u16) -> u8 {
    (w / 256) as u8
}

/// The word whose bytes are `l` (low) and `h` (high).
pub open spec fn word_of(l: u8, h: u8) -> u16 {
    (l + 256 * h) as u16
}

/// The word that a read of the serial FIFO yields: the oldest byte,
/// zero-extended, or `0xFFFF` when it is empty.
pub open spec fn fifo_front(rx: Seq<u8>) -> u16 {
    if rx.len() > 0 {
        rx[0] as u16
    } else {
        0xffff
    }
}

/// The FIFO after a read: without its oldest byte, if it had one.
pub open spec fn fifo_pop(rx: Seq<u8>) -> Seq<u8> {
    if rx.len() > 0 {
        rx.drop_first()
    } else {
        rx
    }
}

/// The FIFO after the host bytes `input` arrive: those that find room are
/// kept, the rest are dropped.
pub open spec fn fifo_receive(rx: Seq<u8>, input: Seq<u8>) -> Seq<u8> {
    let room = SERIAL_CAPACITY - rx.len();
    if input.len() <= room {
        rx + input
    } else {
        rx + input.subrange(0, room)
    }
}

/// Abstract state of the whole bus: RAM, ROM, the serial device and the
/// exit request.
pub struct MemModel {
    pub ram: Seq<u8>,
    pub rom: Seq<u8>,
    /// Received bytes waiting in the serial FIFO, oldest first.
    pub rx: Seq<u8>,
    /// Bytes transmitted to the host and not yet handed over.
    pub tx: Seq<u8>,
    /// Cycles since the first waiting byte arrived (it stops at `usize::MAX`).
    pub cycles: nat,
    pub exit: bool,
}

impl MemModel {
    pub open spec fn wf(self) -> bool {
        &&& self.ram.len() == MAIN_MEM_SIZE
        &&& self.rom.len() == ROM_SIZE
        &&& self.rx.len() <= SERIAL_CAPACITY
    }

    /// The word a read of `SERIAL_RX` yields.
    pub open spec fn rx_word(self) -> u16 {
        fifo_front(self.rx)
    }

    /// The state after a read of `SERIAL_RX`: one byte leaves the FIFO, and
    /// the latency counter restarts once the FIFO is empty.
    pub open spec fn after_rx(self) -> MemModel {
        let rx = fifo_pop(self.rx);
        MemModel { rx, cycles: if rx.len() == 0 { 0 } else { self.cycles }, ..self }
    }

    /// The byte of RAM at `a`, or 0 past its end.
    pub open spec fn ram_at(self, a: int) -> u8 {
        if 0 <= a < MAIN_MEM_SIZE { self.ram[a] } else { 0 }
    }

    /// The byte of ROM at offset `a`, or 0 past its end.
    pub open spec fn rom_at(self, a: int) -> u8 {
        if 0 <= a < ROM_SIZE { self.rom[a] } else { 0 }
    }

    /// The little-endian word that a 16-bit read at `a` returns.
    pub open spec fn word(self, a: u16) -> u16 {
        if a < MAIN_MEM_SIZE {
            word_of(self.ram_at(a as int), self.ram_at(a + 1))
        } else if a >= ROM_START {
            word_of(self.rom_at(a - ROM_START), self.rom_at(a - ROM_START + 1))
        } else if a == SERIAL_RX {
            self.rx_word()
        } else {
            0
        }
    }

    /// The byte that an 8-bit read at `a` returns.
    pub open spec fn byte(self, a: u16) -> u8 {
        if a < MAIN_MEM_SIZE {
            self.ram_at(a as int)
        } else if a >= ROM_START {
            self.rom_at(a - ROM_START)
        } else if a == SERIAL_RX {
            lo(self.rx_word())
        } else {
            0
        }
    }

    /// The state after a read at `a` (of either width).
    pub open spec fn after_read(self, a: u16) -> MemModel {
        if a == SERIAL_RX {
            self.after_rx()
        } else {
            self
        }
    }

    /// The state after a 16-bit write of `v` at `a`.
    pub open spec fn after_write(self, a: u16, v: u16) -> MemModel {
        if a < MAIN_MEM_SIZE {
            let ram = self.ram.update(a as int, lo(v));
            let ram = if a + 1 < MAIN_MEM_SIZE { ram.update(a + 1, hi(v)) } else { ram };
            MemModel { ram, ..self }
        } else if a == SERIAL_TX {
            MemModel { tx: self.tx.push(lo(v)), ..self }
        } else if a == EXIT {
            MemModel { exit: true, ..self }
        } else {
            self
        }
    }

    /// The state after an 8-bit write of `v` at `a`.
    pub open spec fn after_write_8(self, a: u16, v: u8) -> MemModel {
        if a < MAIN_MEM_SIZE {
            MemModel { ram: self.ram.update(a as int, v), ..self }
        } else if a == SERIAL_TX {
            MemModel { tx: self.tx.push(v), ..self }
        } else if a == EXIT {
            MemModel { exit: true, ..self }
        } else {
            self
        }
    }

    /// The state after one serial clock that received `input` from the host.
    pub open spec fn after_clock(self, input: Seq<u8>) -> MemModel {
        let rx = fifo_receive(self.rx, input);
        let cycles = if rx.len() > 0 && self.cycles < usize::MAX {
            self.cycles + 1
        } else {
            self.cycles
        };
        MemModel { rx, cycles, ..self }
    }

    /// Whether the serial device requests an interrupt in this state.
    pub open spec fn irq_raised(self) -> bool {
        self.rx.len() >= SERIAL_BATCH || self.cycles >= SERIAL_LATENCY
    }
}

/// The interface through which the processor reaches the bus. Every implementation
/// behaves as the abstract `MemModel` that `model` returns.
pub trait Memory {
    spec fn model(&self) -> MemModel;

    /// 16-bit read; the bytes come back in bus (little-endian) order.
    fn read(&mut self, addr: u16) -> (r: [u8; 2])
        requires
            old(self).model().wf(),
        ensures
            final(self).model().wf(),
            word_of(r[0], r[1]) == old(self).model().word(addr),
            final(self).model() == old(self).model().after_read(addr),
    ;

    /// 8-bit read.
    fn read_8(&mut self, addr: u16) -> (r: u8)
        requires
            old(self).model().wf(),
        ensures
            final(self).model().wf(),
            r == old(self).model().byte(addr),
            final(self).model() == old(self).model().after_read(addr),
    ;

    /// 16-bit write; the bytes are given in bus (little-endian) order.
    fn write(&mut self, addr: u16, val: [u8; 2])
        requires
            old(self).model().wf(),
        ensures
            final(self).model().wf(),
            final(self).model() == old(self).model().after_write(addr, word_of(val[0], val[1])),
    ;

    /// 8-bit write.
    fn write_8(&mut self, addr: u16, val: u8)
        requires
            old(self).model().wf(),
        ensures
            final(self).model().wf(),
            final(self).model() == old(self).model().after_write_8(addr, val),
    ;

    /// One device clock, with the bytes that arrived from the host since the
    /// last one; returns whether an interrupt is requested.
    fn clock(&mut self, input: &[u8]) -> (irq: bool)
        requires
            old(self).model().wf(),
        ensures
            final(self).model().wf(),
            final(self).model() == old(self).model().after_clock(input@),
            irq == final(self).model().irq_raised(),
    ;

    /// Whether a write to `EXIT` has happened.
    fn should_exit(&self) -> (r: bool)
        ensures
            r == self.model().exit,
    ;

    /// Hands over the bytes transmitted since the last call.
    fn take_output(&mut self) -> (out: Vec<u8>)
        requires
            old(self).model().wf(),
        ensures
            final(self).model().wf(),
            out@ == old(self).model().tx,
            final(self).model() == (MemModel { tx: Seq::empty(), ..old(self).model() }),
    ;
}

} // verus!
