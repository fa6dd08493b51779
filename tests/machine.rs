use vcpu16::computer::Computer;
use vcpu16::mem_map::MemoryMap;
use vcpu16::memory::Memory;
use vcpu16::processor::{Processor, ShouldWriteFlags};

fn rom_with_reset(pc: u16) -> [u8; 4096] {
    let mut rom = [0u8; 4096];
    rom[0xffe] = (pc & 0xff) as u8;
    rom[0xfff] = (pc >> 8) as u8;
    rom
}

/// Stores an instruction (big-endian, as fetched) into RAM.
fn put_instr(mem: &mut MemoryMap, addr: u16, instr: u16) {
    mem.write_8(addr, (instr >> 8) as u8);
    mem.write_8(addr + 1, (instr & 0xff) as u8);
}

/// A processor with its PC at `pc` and `instr` stored there.
fn setup(pc: u16, instr: u16) -> (Processor, MemoryMap) {
    let mut mem = MemoryMap::new([0u8; 4096]);
    put_instr(&mut mem, pc, instr);
    let mut p = Processor::new();
    p.registers[15] = pc;
    (p, mem)
}

fn pending_slot(p: &Processor) -> usize {
    // the slot under the cursor holds what this cycle queued
    if p.cursor { 1 } else { 0 }
}

#[test]
fn reset_reads_reset_vector() {
    let mut mem = MemoryMap::new(rom_with_reset(0x1234));
    put_instr(&mut mem, 0x1234, 0x0710);
    let mut p = Processor::new();
    p.reset(&mut mem);
    assert_eq!(p.registers[15], 0x1234);
    p.clock(&mut mem);
    assert_eq!(p.read_reg(1), 0x0007);
    assert_eq!(p.registers[15], 0x1236);
}

#[test]
fn ldi_to_r0_is_discarded() {
    let (mut p, mut mem) = setup(0x0100, 0x0700);
    p.clock(&mut mem);
    assert_eq!(p.read_reg(0), 0);
}

#[test]
fn ldi_sign_extends() {
    let (mut p, mut mem) = setup(0x0100, 0x0710);
    p.clock(&mut mem);
    assert_eq!(p.read_reg(1), 0x0007);
    assert!(!p.negative);
    let (mut p, mut mem) = setup(0x0100, 0xff10);
    p.clock(&mut mem);
    assert_eq!(p.read_reg(1), 0xffff);
    assert!(p.negative);
}

#[test]
fn ldh_replaces_high_byte() {
    let (mut p, mut mem) = setup(0x0100, 0xab31);
    p.registers[3] = 0x1234;
    p.clock(&mut mem);
    assert_eq!(p.read_reg(3), 0xab34);
}

#[test]
fn adi_with_carry() {
    let (mut p, mut mem) = setup(0x0100, 0x0122);
    p.registers[2] = 0xffff;
    p.clock(&mut mem);
    assert_eq!(p.read_reg(2), 0x0000);
    assert!(p.carry);
    assert!(p.zero);
}

#[test]
fn sbi_then_adi_restores() {
    // no borrow: 10 - 3
    let (mut p, mut mem) = setup(0x0100, 0x0353);
    put_instr(&mut mem, 0x0102, 0x0352);
    p.registers[5] = 10;
    p.clock(&mut mem);
    assert_eq!(p.read_reg(5), 7);
    assert!(p.carry);
    p.clock(&mut mem);
    assert_eq!(p.read_reg(5), 10);
    assert!(!p.carry);
    // borrow: 1 - 3
    let (mut p, mut mem) = setup(0x0100, 0x0353);
    put_instr(&mut mem, 0x0102, 0x0352);
    p.registers[5] = 1;
    p.clock(&mut mem);
    assert_eq!(p.read_reg(5), 0xfffe);
    assert!(!p.carry);
    p.clock(&mut mem);
    assert_eq!(p.read_reg(5), 1);
    assert!(p.carry);
}

#[test]
fn relative_jump_offset() {
    // offset_ek = 0x1002: offset 2, target 0x0102
    let (mut p, mut mem) = setup(0x0100, 0x801c);
    p.clock(&mut mem);
    let s = pending_slot(&p);
    assert_eq!(p.delay_regs[s], 15);
    assert_eq!(p.delay_vals[s], 0x0102);
    assert_eq!(p.registers[15], 0x0102);
}

#[test]
fn relative_jump_has_delay_slot() {
    // offset_ek = 0x1020: offset 0x20, target 0x0120; the link form
    let (mut p, mut mem) = setup(0x0100, 0x810d);
    put_instr(&mut mem, 0x0102, 0x0710); // delay slot: LDI R1, 7
    put_instr(&mut mem, 0x0120, 0x0920); // target: LDI R2, 9
    p.clock(&mut mem);
    assert_eq!(p.read_reg(14), 0x0102);
    p.clock(&mut mem);
    assert_eq!(p.read_reg(1), 7);
    assert_eq!(p.registers[15], 0x0104);
    p.clock(&mut mem);
    assert_eq!(p.read_reg(2), 9);
    assert_eq!(p.registers[15], 0x0122);
}

#[test]
fn relative_jump_not_taken() {
    // conditional on zero, zero clear
    let (mut p, mut mem) = setup(0x0100, 0x810e);
    p.clock(&mut mem);
    let s = pending_slot(&p);
    assert_eq!(p.delay_regs[s], 0);
    assert_eq!(p.registers[15], 0x0102);
}

#[test]
fn register_jump_links_and_delays() {
    // JMP unconditional: ra = R4, link into R14
    let (mut p, mut mem) = setup(0x0200, 0x4e08);
    p.registers[4] = 0x0300;
    p.clock(&mut mem);
    assert_eq!(p.read_reg(14), 0x0202);
    assert_eq!(p.registers[15], 0x0202);
    p.clock(&mut mem);
    assert_eq!(p.registers[15], 0x0204);
    p.clock(&mut mem);
    assert_eq!(p.registers[15], 0x0302);
}

#[test]
fn load_is_delayed() {
    // LD R3 <- [R1 + R2]
    let (mut p, mut mem) = setup(0x0100, 0x1234);
    mem.write(0x0400, [0xcd, 0xab]);
    p.registers[1] = 0x03f0;
    p.registers[2] = 0x0010;
    p.clock(&mut mem);
    assert_eq!(p.read_reg(3), 0);
    p.clock(&mut mem);
    assert_eq!(p.read_reg(3), 0);
    p.clock(&mut mem);
    assert_eq!(p.read_reg(3), 0xabcd);
}

#[test]
fn store_uses_base_address() {
    // ST [R1] <- R3 (the offset register R2 is not added)
    let (mut p, mut mem) = setup(0x0100, 0x1235);
    p.registers[1] = 0x0400;
    p.registers[2] = 0x0010;
    p.registers[3] = 0xbeef;
    p.clock(&mut mem);
    assert_eq!(mem.read(0x0400), [0xef, 0xbe]);
    assert_eq!(mem.read(0x0410), [0, 0]);
}

#[test]
fn byte_load_and_store() {
    let (mut p, mut mem) = setup(0x0100, 0x1237);
    put_instr(&mut mem, 0x0102, 0x1046);
    p.registers[1] = 0x0400;
    p.registers[3] = 0xbeef;
    p.clock(&mut mem);
    assert_eq!(mem.read(0x0400), [0xef, 0x00]);
    p.clock(&mut mem);
    p.clock(&mut mem);
    assert_eq!(p.read_reg(4), 0);
    p.clock(&mut mem);
    assert_eq!(p.read_reg(4), 0x00ef);
}

#[test]
fn push_then_pop() {
    // PUSH R2 at [R13], then POP into R3
    let (mut p, mut mem) = setup(0x0100, 0xd288);
    put_instr(&mut mem, 0x0102, 0xd398);
    p.registers[13] = 0x0800;
    p.registers[2] = 0x1357;
    p.clock(&mut mem);
    assert_eq!(mem.read(0x0800), [0x57, 0x13]);
    assert_eq!(p.read_reg(13), 0x07fe);
    p.clock(&mut mem);
    assert_eq!(p.read_reg(13), 0x0800);
    p.clock(&mut mem);
    assert_eq!(p.read_reg(3), 0);
    p.clock(&mut mem);
    assert_eq!(p.read_reg(3), 0x1357);
}

#[test]
fn mov_and_msx() {
    let (mut p, mut mem) = setup(0x0100, 0x13a8);
    put_instr(&mut mem, 0x0102, 0x14b8);
    p.registers[1] = 0x0080;
    p.clock(&mut mem);
    assert_eq!(p.read_reg(3), 0x0080);
    p.clock(&mut mem);
    assert_eq!(p.read_reg(4), 0xff80);
}

fn alu(op: u16, dest: u16, src: u16, carry: bool) -> Processor {
    // r1 = src register R1, r2 = dest register R2
    let (mut p, mut mem) = setup(0x0100, 0x1209 | (op << 4));
    p.registers[1] = src;
    p.registers[2] = dest;
    p.carry = carry;
    p.clock(&mut mem);
    p
}

#[test]
fn alu_add_and_sub() {
    let p = alu(0, 0xfff0, 0x0020, false);
    assert_eq!(p.read_reg(2), 0x0010);
    assert!(p.carry);
    let p = alu(1, 0x0001, 0x0002, true);
    assert_eq!(p.read_reg(2), 0x0004);
    assert!(!p.carry);
    let p = alu(2, 0x0005, 0x0003, false);
    assert_eq!(p.read_reg(2), 0x0002);
    assert!(p.carry);
    let p = alu(2, 0x0003, 0x0005, true);
    assert_eq!(p.read_reg(2), 0xfffe);
    assert!(!p.carry);
    let p = alu(3, 0x0005, 0x0003, false);
    assert_eq!(p.read_reg(2), 0x0001);
    assert!(p.carry);
    let p = alu(3, 0x0005, 0x0003, true);
    assert_eq!(p.read_reg(2), 0x0002);
}

#[test]
fn alu_logic_and_shifts() {
    assert_eq!(alu(4, 0x0ff0, 0x3c3c, false).read_reg(2), 0x0c30);
    assert_eq!(alu(5, 0x0ff0, 0x3c3c, false).read_reg(2), 0xf00f);
    assert_eq!(alu(6, 0x0ff0, 0x3c3c, false).read_reg(2), 0x3ffc);
    assert_eq!(alu(7, 0x0ff0, 0x3c3c, false).read_reg(2), 0x33cc);
    assert_eq!(alu(8, 0x8001, 1, false).read_reg(2), 0x0002);
    assert_eq!(alu(9, 0x8000, 3, false).read_reg(2), 0x1000);
    assert_eq!(alu(0xa, 0x0003, 2, false).read_reg(2), 0x000c);
    assert_eq!(alu(0xb, 0x8000, 3, false).read_reg(2), 0xf000);
    assert_eq!(alu(0xc, 0x0001, 17, false).read_reg(2), 0x0002);
    assert_eq!(alu(0xd, 0x0100, 20, false).read_reg(2), 0x0010);
}

#[test]
fn alu_flags_word() {
    let mut p = alu(0xf, 0x1234, 0b10101, false);
    assert!(p.zero && !p.negative && p.carry && !p.interrupts && p.fault);
    assert_eq!(p.read_reg(2), 0x1234);
    assert_eq!(p.should_write_flags, ShouldWriteFlags::No);
    assert_eq!(p.get_flags(), 0b10101);
    p.set_flags(0b01010);
    assert_eq!(p.get_flags(), 0b01010);
}

#[test]
fn flags_round_trip() {
    for f in 0u16..32 {
        let mut p = Processor::new();
        p.set_flags(f);
        let w = p.get_flags();
        assert_eq!(w, f);
        p.set_flags(w);
        assert_eq!(p.get_flags(), f);
    }
}

#[test]
fn flag_window_after_set_flags() {
    assert_eq!(ShouldWriteFlags::No.cycle(), ShouldWriteFlags::No2);
    assert_eq!(ShouldWriteFlags::No2.cycle(), ShouldWriteFlags::No3);
    assert_eq!(ShouldWriteFlags::No3.cycle(), ShouldWriteFlags::Yes);
    assert_eq!(ShouldWriteFlags::Yes.cycle(), ShouldWriteFlags::Yes);
    let mut p = Processor::new();
    p.set_flags(0);
    p.write_reg(3, 0);
    assert!(!p.zero);
}

#[test]
fn write_then_read_register() {
    let mut p = Processor::new();
    p.write_reg(0, 0x5555);
    assert_eq!(p.read_reg(0), 0);
    p.write_reg(7, 0x8001);
    assert_eq!(p.read_reg(7), 0x8001);
    assert!(p.negative && !p.zero);
    p.write_reg_no_flags(7, 0);
    assert_eq!(p.read_reg(7), 0);
    assert!(p.negative && !p.zero);
}

#[test]
fn delay_slot_latency() {
    let mut p = Processor::new();
    p.set_delay(3, 0x77);
    p.write_delays();
    assert_eq!(p.read_reg(3), 0);
    p.set_delay(4, 0x11);
    p.write_delays();
    assert_eq!(p.read_reg(3), 0x77);
    assert_eq!(p.read_reg(4), 0);
    p.write_delays();
    assert_eq!(p.read_reg(4), 0x11);
}

#[test]
fn irq_gating() {
    let mut rom = rom_with_reset(0);
    rom[0xffa] = 0x00;
    rom[0xffb] = 0xf8;
    let mut mem = MemoryMap::new(rom);
    let mut p = Processor::new();
    p.registers[15] = 0x0200;
    p.irq(&mut mem);
    assert_eq!(p.registers[15], 0x0200);
    assert_eq!(p.iret, 0);
    p.interrupts = true;
    p.should_write_flags = ShouldWriteFlags::No3;
    p.irq(&mut mem);
    assert_eq!(p.registers[15], 0x0200);
    p.should_write_flags = ShouldWriteFlags::Yes;
    p.irq(&mut mem);
    assert_eq!(p.registers[15], 0xf800);
    assert_eq!(p.iret, 0x01fe);
    assert!(!p.interrupts);
}

#[test]
fn software_interrupt_and_return() {
    let mut rom = rom_with_reset(0);
    rom[0xffc] = 0x00;
    rom[0xffd] = 0x06;
    let mut mem = MemoryMap::new(rom);
    put_instr(&mut mem, 0x0100, 0x00c8); // INT
    put_instr(&mut mem, 0x0600, 0xd048); // PSR via R13
    put_instr(&mut mem, 0x0602, 0xd058); // IRET via R13
    let mut p = Processor::new();
    p.registers[15] = 0x0100;
    p.registers[13] = 0x0800;
    p.interrupts = true;
    p.clock(&mut mem);
    assert_eq!(p.registers[15], 0x0600);
    assert_eq!(p.iret, 0x0100);
    assert!(!p.interrupts);
    p.clock(&mut mem);
    assert_eq!(mem.read(0x0800), [0x00, 0x01]);
    p.clock(&mut mem);
    assert_eq!(p.registers[15], 0x0102);
    assert!(p.interrupts);
}

#[test]
fn ram_write_read() {
    let mut mem = MemoryMap::new([0u8; 4096]);
    mem.write(0x0100, [0x34, 0x12]);
    assert_eq!(mem.read(0x0100), [0x34, 0x12]);
    assert_eq!(mem.read_8(0x0100), 0x34);
    assert_eq!(mem.read_8(0x0101), 0x12);
    mem.write(0x7ffe, [0xaa, 0xbb]);
    assert_eq!(mem.read(0x7ffe), [0xaa, 0xbb]);
    mem.write(0x7fff, [0x01, 0x02]);
    assert_eq!(mem.read(0x7fff), [0x01, 0x00]);
}

#[test]
fn rom_is_read_only() {
    let mut rom = [0u8; 4096];
    rom[0] = 0x11;
    rom[1] = 0x22;
    let mut mem = MemoryMap::new(rom);
    mem.write(0xf000, [0xff, 0xff]);
    mem.write_8(0xf001, 0xff);
    assert_eq!(mem.read(0xf000), [0x11, 0x22]);
    assert_eq!(mem.read(0xffff), [0x00, 0x00]);
}

#[test]
fn unmapped_reads_zero() {
    let mut mem = MemoryMap::new([0u8; 4096]);
    mem.write(0x9000, [1, 2]);
    assert_eq!(mem.read(0x9000), [0, 0]);
    assert_eq!(mem.read_8(0x9000), 0);
}

#[test]
fn serial_rx_batching() {
    let mut mem = MemoryMap::new([0u8; 4096]);
    assert!(mem.clock(&[0x41, 0x42, 0x43, 0x44]));
    assert_eq!(mem.read(0xe002), [0x41, 0x00]);
    assert_eq!(mem.read(0xe002), [0x42, 0x00]);
}

#[test]
fn serial_rx_empty_and_latency() {
    let mut mem = MemoryMap::new([0u8; 4096]);
    assert_eq!(mem.read(0xe002), [0xff, 0xff]);
    assert_eq!(mem.read_8(0xe002), 0xff);
    assert!(!mem.clock(&[0x41]));
    for _ in 0..14 {
        assert!(!mem.clock(&[]));
    }
    assert!(mem.clock(&[]));
    assert_eq!(mem.read(0xe002), [0x41, 0x00]);
    assert!(!mem.clock(&[]));
}

#[test]
fn serial_rx_capacity() {
    let mut mem = MemoryMap::new([0u8; 4096]);
    let bytes: Vec<u8> = (0u8..20).collect();
    assert!(mem.clock(&bytes));
    for i in 0u8..16 {
        assert_eq!(mem.read_8(0xe002), i);
    }
    assert_eq!(mem.read(0xe002), [0xff, 0xff]);
}

#[test]
fn serial_tx_collects_bytes() {
    let mut mem = MemoryMap::new([0u8; 4096]);
    mem.write(0xe000, [0x48, 0x99]);
    mem.write_8(0xe000, 0x69);
    assert_eq!(mem.take_output(), vec![0x48, 0x69]);
    assert_eq!(mem.take_output(), Vec::<u8>::new());
}

#[test]
fn exit_write_requests_exit() {
    let mut mem = MemoryMap::new([0u8; 4096]);
    assert!(!mem.should_exit());
    mem.write_8(0xe100, 0);
    assert!(mem.should_exit());
}

/// ROM program: R1 <- 0xE100, then a store to it.
fn exit_rom() -> [u8; 4096] {
    let mut rom = rom_with_reset(0xf000);
    let prog: [u16; 3] = [0x0010, 0xe111, 0x1005];
    for (i, w) in prog.iter().enumerate() {
        rom[2 * i] = (w >> 8) as u8;
        rom[2 * i + 1] = (w & 0xff) as u8;
    }
    rom
}

#[test]
fn computer_runs_until_exit() {
    let mut c = Computer::new(MemoryMap::new(exit_rom()));
    let inputs: Vec<Vec<u8>> = vec![Vec::new(); 10];
    assert_eq!(c.run(&inputs), 3);
    assert!(c.mem.should_exit());
    assert_eq!(c.processor.read_reg(1), 0xe100);
}

#[test]
fn computer_ticks() {
    let mut c = Computer::new(MemoryMap::new(exit_rom()));
    c.start();
    assert_eq!(c.processor.registers[15], 0xf000);
    assert!(!c.tick(&[]));
    assert!(!c.tick(&[]));
    assert!(c.tick(&[]));
}

#[test]
fn computer_serial_irq_enters_handler() {
    let mut rom = rom_with_reset(0x0100);
    rom[0xffa] = 0x00;
    rom[0xffb] = 0x02;
    let mut c = Computer::new(MemoryMap::new(rom));
    c.start();
    c.processor.interrupts = true;
    assert!(!c.tick(&[1, 2, 3, 4]));
    assert_eq!(c.processor.registers[15], 0x0200);
    assert_eq!(c.processor.iret, 0x0100);
}
