//! The memory map: RAM, ROM and the memory-mapped devices behind one 16-bit
//! address space.

use std::collections::VecDeque;
use vstd::prelude::*;
use crate::memory::{
    fifo_front, fifo_pop, fifo_receive, word_of, MemModel, Memory, EXIT, MAIN_MEM_SIZE, ROM_SIZE, ROM_START, SERIAL_BATCH,
    SERIAL_CAPACITY, SERIAL_LATENCY, SERIAL_RX, SERIAL_TX,
};

verus! {

/// The serial terminal: a FIFO of received bytes and the bytes sent out.
/// Host I/O stays outside: received bytes are handed to `clock`, sent bytes
/// are collected until `take_output`.
pub struct Serial {
    buf: VecDeque<u8>,
    out: Vec<u8>,
    cycles_since_first_byte: usize,
}

impl Serial {
    pub closed spec fn fifo(&self) -> Seq<u8> {
        self.buf@
    }

    pub closed spec fn sent(&self) -> Seq<u8> {
        self.out@
    }

    pub closed spec fn cycles(&self) -> nat {
        self.cycles_since_first_byte as nat
    }

    pub fn new() -> (r: Serial)
        ensures
            r.fifo() == Seq::<u8>::empty(),
            r.sent() == Seq::<u8>::empty(),
            r.cycles() == 0,
    {
        Serial { buf: VecDeque::new(), out: Vec::new(), cycles_since_first_byte: 0 }
    }

    /// Takes in the bytes that arrived, as far as the FIFO has room, and
    /// returns whether an interrupt is requested.
    pub fn clock(&mut self, input: &[u8]) -> (irq: bool)
        requires
            old(self).fifo().len() <= SERIAL_CAPACITY,
        ensures
            final(self).fifo() == fifo_receive(old(self).fifo(), input@),
            final(self).sent() == old(self).sent(),
            final(self).cycles() == (if final(self).fifo().len() > 0 && old(self).cycles() < usize::MAX {
                old(self).cycles() + 1
            } else {
                old(self).cycles()
            }),
            irq == (final(self).fifo().len() >= SERIAL_BATCH || final(self).cycles() >= SERIAL_LATENCY),
    {
        let ghost start = self.buf@;
        let mut i: usize = 0;
        while i < input.len() && self.buf.len() < SERIAL_CAPACITY
            invariant
                i <= input@.len(),
                start.len() <= SERIAL_CAPACITY,
                self.buf@ == start + input@.subrange(0, i as int),
                self.buf@.len() <= SERIAL_CAPACITY,
                self.out@ == old(self).out@,
                self.cycles_since_first_byte == old(self).cycles_since_first_byte,
                start == old(self).buf@,
            decreases input@.len() - i,
        {
            self.buf.push_back(input[i]);
            i = i + 1;
            assert(input@.subrange(0, i as int) == input@.subrange(0, i - 1).push(input@[i - 1]));
        }
        if i == input.len() {
            assert(input@.subrange(0, i as int) == input@);
        }
        if self.buf.len() > 0 && self.cycles_since_first_byte < usize::MAX {
            self.cycles_since_first_byte = self.cycles_since_first_byte + 1;
        }
        self.buf.len() >= SERIAL_BATCH || self.cycles_since_first_byte >= SERIAL_LATENCY
    }

    /// Takes the oldest byte out of the FIFO, zero-extended, or `0xFFFF`
    /// when it is empty; returned in bus order.
    pub fn read(&mut self) -> (r: [u8; 2])
        ensures
            word_of(r[0], r[1]) == fifo_front(old(self).fifo()),
            final(self).fifo() == fifo_pop(old(self).fifo()),
            final(self).cycles() == (if final(self).fifo().len() == 0 { 0 } else { old(self).cycles() }),
            final(self).sent() == old(self).sent(),
    {
        let v: u16 = match self.buf.pop_front() {
            Some(b) => b as u16,
            None => 0xffff,
        };
        if self.buf.len() == 0 {
            self.cycles_since_first_byte = 0;
        }
        [(v % 256) as u8, (v / 256) as u8]
    }

    /// Sends the low byte of `b` to the host.
    pub fn write(&mut self, b: [u8; 2])
        ensures
            final(self).sent() == old(self).sent().push(b[0]),
            final(self).fifo() == old(self).fifo(),
            final(self).cycles() == old(self).cycles(),
    {
        self.out.push(b[0]);
    }

    /// Hands over the bytes sent since the last call.
    pub fn take_output(&mut self) -> (out: Vec<u8>)
        ensures
            out@ == old(self).sent(),
            final(self).sent() == Seq::<u8>::empty(),
            final(self).fifo() == old(self).fifo(),
            final(self).cycles() == old(self).cycles(),
    {
        let mut out: Vec<u8> = Vec::new();
        std::mem::swap(&mut out, &mut self.out);
        out
    }
}

/// RAM, ROM, the serial device and the exit request, decoded by address.
pub struct MemoryMap {
    main_mem: [u8; MAIN_MEM_SIZE],
    serial: Serial,
    rom: [u8; ROM_SIZE],
    should_exit: bool,
}

impl MemoryMap {
    /// Zeroed RAM, the given ROM image, an empty serial FIFO.
    pub fn new(rom: [u8; ROM_SIZE]) -> (r: MemoryMap)
        ensures
            r.model().wf(),
            r.model().ram == Seq::new(MAIN_MEM_SIZE as nat, |i: int| 0u8),
            r.model().rom == rom@,
            r.model().rx == Seq::<u8>::empty(),
            r.model().tx == Seq::<u8>::empty(),
            r.model().cycles == 0,
            !r.model().exit,
    {
        let r = MemoryMap { main_mem: [0u8; MAIN_MEM_SIZE], serial: Serial::new(), rom, should_exit: false };
        assert(r.main_mem@ =~= Seq::new(MAIN_MEM_SIZE as nat, |i: int| 0u8));
        r
    }
}

impl Memory for MemoryMap {
    closed spec fn model(&self) -> MemModel {
        MemModel {
            ram: self.main_mem@,
            rom: self.rom@,
            rx: self.serial.fifo(),
            tx: self.serial.sent(),
            cycles: self.serial.cycles(),
            exit: self.should_exit,
        }
    }

    fn read(&mut self, addr: u16) -> (r: [u8; 2]) {
        let a = addr as usize;
        if a < MAIN_MEM_SIZE {
            let l = self.main_mem[a];
            let h = if a + 1 < MAIN_MEM_SIZE { self.main_mem[a + 1] } else { 0 };
            [l, h]
        } else if a >= ROM_START {
            let a = a - ROM_START;
            let l = self.rom[a];
            let h = if a + 1 < ROM_SIZE { self.rom[a + 1] } else { 0 };
            [l, h]
        } else if a == SERIAL_RX {
            self.serial.read()
        } else {
            [0, 0]
        }
    }

    fn read_8(&mut self, addr: u16) -> (r: u8) {
        let a = addr as usize;
        if a < MAIN_MEM_SIZE {
            self.main_mem[a]
        } else if a >= ROM_START {
            self.rom[a - ROM_START]
        } else if a == SERIAL_RX {
            let w = self.serial.read();
            w[0]
        } else {
            0
        }
    }

    fn write(&mut self, addr: u16, val: [u8; 2]) {
        let a = addr as usize;
        if a < MAIN_MEM_SIZE {
            self.main_mem[a] = val[0];
            if a + 1 < MAIN_MEM_SIZE {
                self.main_mem[a + 1] = val[1];
            }
        } else if a == SERIAL_TX {
            self.serial.write(val);
        } else if a == EXIT {
            self.should_exit = true;
        }
    }

    fn write_8(&mut self, addr: u16, val: u8) {
        let a = addr as usize;
        if a < MAIN_MEM_SIZE {
            self.main_mem[a] = val;
        } else if a == SERIAL_TX {
            self.serial.write([val, 0]);
        } else if a == EXIT {
            self.should_exit = true;
        }
    }

    fn clock(&mut self, input: &[u8]) -> (irq: bool) {
        self.serial.clock(input)
    }

    fn should_exit(&self) -> (r: bool) {
        self.should_exit
    }

    fn take_output(&mut self) -> (out: Vec<u8>) {
        self.serial.take_output()
    }
}

} // verus!
