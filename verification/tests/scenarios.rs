use m6502::bus::{Bus, Ram};
use m6502::clock::CycleCounter;
use m6502::cpu::Cpu;
use m6502::instruction::{Address, CpuError, Instruction, Opcode};

const N: u8 = 0x80;
const V: u8 = 0x40;
const RESERVED: u8 = 0x20;
const B: u8 = 0x10;
const I: u8 = 0x04;
const Z: u8 = 0x02;
const C: u8 = 0x01;

fn machine(cells: &[(u16, u8)]) -> Cpu<Ram, CycleCounter> {
    let mut ram = Ram::new();
    for (addr, byte) in cells {
        ram.store(*addr, *byte);
    }
    Cpu::new(ram, CycleCounter::new())
}

fn program(bytes: &[u8]) -> Cpu<Ram, CycleCounter> {
    let mut ram = Ram::new();
    for (i, byte) in bytes.iter().enumerate() {
        ram.store(0x0200 + i as u16, *byte);
    }
    Cpu::new(ram, CycleCounter::new())
}

#[test]
fn reset_state() {
    let cpu = Cpu::new(Ram::new(), CycleCounter::new());
    assert_eq!((cpu.accumulator, cpu.x, cpu.y), (0, 0, 0));
    assert_eq!(cpu.sp, 0);
    assert_eq!(cpu.status, 0x20);
    assert_eq!(cpu.pc, 0x0200);
    assert_eq!(cpu.clock.cpassed(), 0);
}

#[test]
fn explicit_state_forces_the_reserved_bit() {
    let cpu = Cpu::with_state(Ram::new(), CycleCounter::new(), 1, 2, 0x00, 4, 5, 0x0607);
    assert_eq!((cpu.x, cpu.y, cpu.status, cpu.accumulator, cpu.sp, cpu.pc), (1, 2, 0x20, 4, 5, 0x0607));
    let cpu = Cpu::with_state(Ram::new(), CycleCounter::new(), 0, 0, 0xc3, 0, 0, 0);
    assert_eq!(cpu.status, 0xe3);
    let cpu = Cpu::with_state(Ram::new(), CycleCounter::new(), 0, 0, 0xff, 0, 0, 0);
    assert_eq!(cpu.status, 0xff);
}

#[test]
fn lda_immediate_loads_the_operand() {
    let mut cpu = program(&[0xA9, 0x42]);
    assert_eq!((cpu.accumulator, cpu.status), (0, 0x20));
    assert_eq!(cpu.step(), Ok(false));
    assert_eq!(cpu.accumulator, 0x42);
    assert_eq!(cpu.pc, 0x0202);
    assert_eq!(cpu.status, 0x20);
    assert_eq!(cpu.clock.cpassed(), 2);
}

#[test]
fn lda_immediate_zero_sets_the_zero_flag() {
    let mut cpu = program(&[0xA9, 0x00]);
    assert_eq!(cpu.step(), Ok(false));
    assert_eq!(cpu.accumulator, 0);
    assert_eq!(cpu.status, 0x22);
}

#[test]
fn adc_overflows_into_the_sign() {
    let mut cpu = program(&[0x69, 0x01]);
    cpu.accumulator = 0x7F;
    assert_eq!(cpu.step(), Ok(false));
    assert_eq!(cpu.accumulator, 0x80);
    assert_eq!(cpu.status & N, N);
    assert_eq!(cpu.status & V, V);
    assert_eq!(cpu.status & C, 0);
    assert_eq!(cpu.status & Z, 0);
    assert_eq!(cpu.status, RESERVED | N | V);
}

#[test]
fn jmp_indirect_takes_the_high_byte_from_the_same_page() {
    let mut cpu = machine(&[(0x02FF, 0x34), (0x0200, 0x12), (0x0300, 0x56)]);
    let jump = Instruction { opcode: Opcode::JMP, address: Address::Indirect(0x02FF) };
    assert_eq!(cpu.execute(jump), Ok(false));
    assert_eq!(cpu.pc, 0x1234);
    assert_eq!(cpu.clock.cpassed(), 5);
}

#[test]
fn jmp_indirect_fetched_from_memory() {
    let mut cpu = machine(&[
        (0x0400, 0x6C),
        (0x0401, 0xFF),
        (0x0402, 0x02),
        (0x02FF, 0x34),
        (0x0200, 0x12),
        (0x0300, 0x56),
    ]);
    cpu.pc = 0x0400;
    assert_eq!(
        cpu.fetch(),
        Ok(Instruction { opcode: Opcode::JMP, address: Address::Indirect(0x02FF) })
    );
    assert_eq!(cpu.pc, 0x0403);
    cpu.pc = 0x0400;
    assert_eq!(cpu.step(), Ok(false));
    assert_eq!(cpu.pc, 0x1234);
    assert_eq!(cpu.clock.cpassed(), 5);
}

#[test]
fn jmp_indirect_within_a_page_reads_the_next_byte() {
    let mut cpu = machine(&[(0x02FE, 0x34), (0x02FF, 0x12), (0x0200, 0x99)]);
    let jump = Instruction { opcode: Opcode::JMP, address: Address::Indirect(0x02FE) };
    assert_eq!(cpu.execute(jump), Ok(false));
    assert_eq!(cpu.pc, 0x1234);
}

#[test]
fn jmp_absolute() {
    let mut cpu = program(&[0x4C, 0x34, 0x12]);
    assert_eq!(cpu.step(), Ok(false));
    assert_eq!(cpu.pc, 0x1234);
    assert_eq!(cpu.clock.cpassed(), 3);
}

#[test]
fn jsr_pushes_the_return_address_and_rts_comes_back() {
    let mut cpu = program(&[0x20, 0x34, 0x12]);
    cpu.bus.store(0x1234, 0x60);
    cpu.sp = 0xfd;
    assert_eq!(cpu.step(), Ok(false));
    assert_eq!(cpu.pc, 0x1234);
    assert_eq!(cpu.sp, 0xfb);
    assert_eq!(cpu.bus.load(0x0100 | (cpu.sp as u16 + 1)), 0x02);
    assert_eq!(cpu.bus.load(0x0100 | (cpu.sp as u16 + 2)), 0x02);
    assert_eq!(cpu.bus.load(0x01fd), 0x02);
    assert_eq!(cpu.bus.load(0x01fc), 0x02);
    assert_eq!(cpu.clock.cpassed(), 6);
    assert_eq!(cpu.step(), Ok(false));
    assert_eq!(cpu.pc, 0x0203);
    assert_eq!(cpu.sp, 0xfd);
    assert_eq!(cpu.clock.cpassed(), 12);
}

#[test]
fn jsr_pushes_high_then_low() {
    let mut cpu = machine(&[(0x12fe, 0x20), (0x12ff, 0x00), (0x1300, 0x40)]);
    cpu.pc = 0x12fe;
    cpu.sp = 0x00;
    assert_eq!(cpu.step(), Ok(false));
    assert_eq!(cpu.pc, 0x4000);
    assert_eq!(cpu.sp, 0xfe);
    assert_eq!(cpu.bus.load(0x0100), 0x13);
    assert_eq!(cpu.bus.load(0x01ff), 0x00);
    assert_eq!(cpu.bus.load(0x0000), 0x00);
    assert_eq!(cpu.bus.load(0x0200), 0x00);
}

#[test]
fn bne_at_the_end_of_a_page() {
    // The branch is taken from the address behind the instruction, which here is already in
    // the page of the target.
    let mut cpu = machine(&[(0x02FE, 0xD0), (0x02FF, 0x04)]);
    cpu.pc = 0x02FE;
    assert_eq!(cpu.step(), Ok(false));
    assert_eq!(cpu.pc, 0x0304);
    assert_eq!(cpu.clock.cpassed(), 3);
}

#[test]
fn bne_taken_across_a_page() {
    let mut cpu = machine(&[(0x02FA, 0xD0), (0x02FB, 0x08)]);
    cpu.pc = 0x02FA;
    assert_eq!(cpu.step(), Ok(false));
    assert_eq!(cpu.pc, 0x0304);
    assert_eq!(cpu.clock.cpassed(), 4);
}

#[test]
fn bne_taken_within_a_page() {
    let mut cpu = program(&[0xD0, 0x04]);
    assert_eq!(cpu.step(), Ok(false));
    assert_eq!(cpu.pc, 0x0206);
    assert_eq!(cpu.clock.cpassed(), 3);
}

#[test]
fn bne_not_taken() {
    let mut cpu = program(&[0xD0, 0x04]);
    cpu.status = RESERVED | Z;
    assert_eq!(cpu.step(), Ok(false));
    assert_eq!(cpu.pc, 0x0202);
    assert_eq!(cpu.clock.cpassed(), 2);
}

#[test]
fn branch_backwards() {
    let mut cpu = program(&[0xD0, 0xFC]);
    assert_eq!(cpu.step(), Ok(false));
    assert_eq!(cpu.pc, 0x01FE);
    assert_eq!(cpu.clock.cpassed(), 4);
    let mut cpu = machine(&[(0x0210, 0xF0), (0x0211, 0x80)]);
    cpu.pc = 0x0210;
    cpu.status = RESERVED | Z;
    assert_eq!(cpu.step(), Ok(false));
    assert_eq!(cpu.pc, 0x0192);
    assert_eq!(cpu.clock.cpassed(), 4);
}

#[test]
fn every_branch_tests_its_own_flag() {
    let branches = [
        (0x10, N, false),
        (0x30, N, true),
        (0x50, V, false),
        (0x70, V, true),
        (0x90, C, false),
        (0xB0, C, true),
        (0xD0, Z, false),
        (0xF0, Z, true),
    ];
    for (opcode, flag, taken_when_set) in branches {
        for set in [false, true] {
            let mut cpu = program(&[opcode, 0x10]);
            cpu.status = if set { RESERVED | flag } else { 0xff & !flag };
            assert_eq!(cpu.step(), Ok(false));
            let taken = set == taken_when_set;
            assert_eq!(cpu.pc, if taken { 0x0212 } else { 0x0202 }, "{opcode:02x}");
            assert_eq!(cpu.clock.cpassed(), if taken { 3 } else { 2 });
        }
    }
}

#[test]
fn brk_pushes_and_takes_the_vector() {
    let mut cpu = machine(&[(0x0200, 0x00), (0xFFFE, 0xAB), (0xFFFF, 0xCD)]);
    cpu.sp = 0xff;
    cpu.status = RESERVED | C;
    assert_eq!(cpu.step(), Ok(true));
    assert_eq!(cpu.pc, 0xCDAB);
    assert_eq!(cpu.status & I, I);
    assert_eq!(cpu.status, RESERVED | C | I);
    assert_eq!(cpu.clock.cpassed(), 7);
    assert_eq!(cpu.sp, 0xfc);
    assert_eq!(cpu.bus.load(0x01ff), 0x02);
    assert_eq!(cpu.bus.load(0x01fe), 0x02);
    assert_eq!(cpu.bus.load(0x01fd), RESERVED | B | C);
}

#[test]
fn rti_undoes_brk() {
    let mut cpu = machine(&[(0x0200, 0x00), (0xFFFE, 0x00), (0xFFFF, 0x40), (0x4000, 0x40)]);
    cpu.sp = 0x01;
    cpu.status = RESERVED | N | C;
    assert_eq!(cpu.step(), Ok(true));
    assert_eq!(cpu.pc, 0x4000);
    assert_eq!(cpu.sp, 0xfe);
    assert_eq!(cpu.bus.load(0x0101), 0x02);
    assert_eq!(cpu.bus.load(0x0100), 0x02);
    assert_eq!(cpu.bus.load(0x01ff), RESERVED | B | N | C);
    assert_eq!(cpu.step(), Ok(false));
    assert_eq!(cpu.pc, 0x0202);
    assert_eq!(cpu.sp, 0x01);
    assert_eq!(cpu.status, RESERVED | N | C);
    assert_eq!(cpu.clock.cpassed(), 13);
}

#[test]
fn php_sets_break_and_reserved_in_the_pushed_byte_only() {
    let mut cpu = program(&[0x08]);
    cpu.sp = 0x80;
    cpu.status = RESERVED | Z;
    assert_eq!(cpu.step(), Ok(false));
    assert_eq!(cpu.bus.load(0x0180), RESERVED | B | Z);
    assert_eq!(cpu.status, RESERVED | Z);
    assert_eq!(cpu.sp, 0x7f);
    assert_eq!(cpu.clock.cpassed(), 3);
}

#[test]
fn plp_clears_break_and_sets_reserved() {
    let mut cpu = program(&[0x28, 0x28]);
    cpu.sp = 0x7f;
    cpu.bus.store(0x0180, 0xff);
    cpu.bus.store(0x0181, 0x00);
    assert_eq!(cpu.step(), Ok(false));
    assert_eq!(cpu.status, 0xef);
    assert_eq!(cpu.sp, 0x80);
    assert_eq!(cpu.clock.cpassed(), 4);
    assert_eq!(cpu.step(), Ok(false));
    assert_eq!(cpu.status, 0x20);
}

#[test]
fn pha_and_pla() {
    let mut cpu = program(&[0x48, 0xA9, 0x00, 0x68]);
    cpu.accumulator = 0x80;
    cpu.sp = 0x00;
    assert_eq!(cpu.step(), Ok(false));
    assert_eq!(cpu.sp, 0xff);
    assert_eq!(cpu.bus.load(0x0100), 0x80);
    assert_eq!(cpu.step(), Ok(false));
    assert_eq!(cpu.status, RESERVED | Z);
    assert_eq!(cpu.step(), Ok(false));
    assert_eq!(cpu.accumulator, 0x80);
    assert_eq!(cpu.sp, 0x00);
    assert_eq!(cpu.status, RESERVED | N);
    assert_eq!(cpu.clock.cpassed(), 3 + 2 + 4);
}

#[test]
fn an_unknown_opcode_byte_is_refused() {
    let mut cpu = program(&[0x02]);
    assert_eq!(cpu.fetch(), Err(CpuError::IllegalOpcode));
    assert_eq!(cpu.pc, 0x0201);
    let mut cpu = program(&[0x02]);
    assert_eq!(cpu.step(), Err(CpuError::IllegalOpcode));
    assert_eq!(cpu.pc, 0x0201);
    assert_eq!(cpu.clock.cpassed(), 0);
    let mut cpu = program(&[0xEA, 0xFF]);
    assert_eq!(cpu.run(10), Err(CpuError::IllegalOpcode));
    assert_eq!(cpu.pc, 0x0202);
    assert_eq!(cpu.clock.cpassed(), 2);
}

#[test]
fn a_mode_that_the_mnemonic_lacks_is_refused() {
    let illegal = [
        Instruction { opcode: Opcode::NOP, address: Address::Absolute(0x1234) },
        Instruction { opcode: Opcode::BRK, address: Address::Immediate(1) },
        Instruction { opcode: Opcode::STA, address: Address::Immediate(1) },
        Instruction { opcode: Opcode::LDA, address: Address::ZeroY(1) },
        Instruction { opcode: Opcode::LDA, address: Address::Accumulator },
        Instruction { opcode: Opcode::LDX, address: Address::ZeroX(1) },
        Instruction { opcode: Opcode::LDX, address: Address::IndirectY(1) },
        Instruction { opcode: Opcode::LDY, address: Address::ZeroY(1) },
        Instruction { opcode: Opcode::STX, address: Address::ZeroX(1) },
        Instruction { opcode: Opcode::STX, address: Address::AbsoluteY(1) },
        Instruction { opcode: Opcode::STY, address: Address::ZeroY(1) },
        Instruction { opcode: Opcode::CPX, address: Address::ZeroX(1) },
        Instruction { opcode: Opcode::BIT, address: Address::Immediate(1) },
        Instruction { opcode: Opcode::INC, address: Address::Accumulator },
        Instruction { opcode: Opcode::DEC, address: Address::AbsoluteY(1) },
        Instruction { opcode: Opcode::ASL, address: Address::Implied },
        Instruction { opcode: Opcode::ROR, address: Address::AbsoluteY(1) },
        Instruction { opcode: Opcode::JMP, address: Address::Relative(1) },
        Instruction { opcode: Opcode::JSR, address: Address::Indirect(1) },
        Instruction { opcode: Opcode::BNE, address: Address::Implied },
        Instruction { opcode: Opcode::BEQ, address: Address::Absolute(1) },
    ];
    for instruction in illegal {
        assert!(!instruction.is_legal());
        let mut cpu = Cpu::with_state(Ram::new(), CycleCounter::new(), 1, 2, 0xe3, 4, 5, 0x0607);
        assert_eq!(cpu.execute(instruction), Err(CpuError::IllegalAddressingMode));
        assert_eq!((cpu.x, cpu.y, cpu.status, cpu.accumulator, cpu.sp, cpu.pc), (1, 2, 0xe3, 4, 5, 0x0607));
        assert!(cpu.bus == Ram::new());
        assert_eq!(cpu.clock.cpassed(), 0);
    }
}

#[test]
fn branch_refuses_what_is_not_relative() {
    let mut cpu = program(&[]);
    assert_eq!(cpu.branch(true, Address::Absolute(4)), Err(CpuError::IllegalAddressingMode));
    assert_eq!(cpu.branch(false, Address::Implied), Err(CpuError::IllegalAddressingMode));
    assert_eq!(cpu.pc, 0x0200);
    assert_eq!(cpu.branch(false, Address::Relative(4)), Ok(2));
    assert_eq!(cpu.pc, 0x0200);
    assert_eq!(cpu.branch(true, Address::Relative(4)), Ok(3));
    assert_eq!(cpu.pc, 0x0204);
    assert_eq!(cpu.branch(true, Address::Relative(0xf0)), Ok(4));
    assert_eq!(cpu.pc, 0x01f4);
}

#[test]
fn run_stops_at_brk() {
    // LDX #3; loop: DEX; BNE loop; BRK
    let mut cpu = program(&[0xA2, 0x03, 0xCA, 0xD0, 0xFD, 0x00]);
    cpu.sp = 0xff;
    assert_eq!(cpu.run(1000), Ok(true));
    assert_eq!(cpu.x, 0);
    assert_eq!(cpu.pc, 0x0000);
    assert_eq!(cpu.clock.cpassed(), 2 + 3 * 2 + 2 * 3 + 2 + 7);
    assert_eq!(cpu.bus.load(0x01ff), 0x02);
    assert_eq!(cpu.bus.load(0x01fe), 0x07);
}

#[test]
fn run_stops_when_the_budget_is_spent() {
    // loop: JMP loop
    let mut cpu = program(&[0x4C, 0x00, 0x02]);
    assert_eq!(cpu.run(0), Ok(false));
    assert_eq!(cpu.clock.cpassed(), 0);
    assert_eq!(cpu.run(5), Ok(false));
    assert_eq!(cpu.pc, 0x0200);
    assert_eq!(cpu.clock.cpassed(), 15);
    let mut cpu = program(&[0xEA, 0xEA, 0x00]);
    assert_eq!(cpu.run(2), Ok(false));
    assert_eq!(cpu.pc, 0x0202);
    assert_eq!(cpu.run(1), Ok(true));
}

#[test]
fn sed_sets_the_flag_but_arithmetic_stays_binary() {
    // SED; CLC; LDA #$09; ADC #$01
    let mut cpu = program(&[0xF8, 0x18, 0xA9, 0x09, 0x69, 0x01]);
    assert_eq!(cpu.run(4), Ok(false));
    assert_eq!(cpu.accumulator, 0x0A);
    assert_eq!(cpu.status, RESERVED | 0x08);
    assert!(cpu.decimal());
    // SEC; SBC #$01 in decimal mode
    let mut cpu = program(&[0xF8, 0x38, 0xA9, 0x10, 0xE9, 0x01, 0xD8]);
    assert_eq!(cpu.run(4), Ok(false));
    assert_eq!(cpu.accumulator, 0x0F);
    assert_eq!(cpu.step(), Ok(false));
    assert!(!cpu.decimal());
}

#[test]
fn sbc_is_adc_of_the_complement() {
    let mut cpu = program(&[0x38, 0xE9, 0x01]);
    cpu.accumulator = 0x00;
    assert_eq!(cpu.run(2), Ok(false));
    assert_eq!(cpu.accumulator, 0xff);
    assert_eq!(cpu.status, RESERVED | N);
    let mut cpu = program(&[0x18, 0xE9, 0x7f]);
    cpu.accumulator = 0x80;
    assert_eq!(cpu.run(2), Ok(false));
    assert_eq!(cpu.accumulator, 0x00);
    assert_eq!(cpu.status, RESERVED | V | Z | C);
}

#[test]
fn page_crossing_costs_a_cycle_on_reads_only() {
    // LDA $12FF,X
    let mut cpu = program(&[0xBD, 0xFF, 0x12]);
    cpu.x = 1;
    cpu.bus.store(0x1300, 0x77);
    assert_eq!(cpu.step(), Ok(false));
    assert_eq!(cpu.accumulator, 0x77);
    assert_eq!(cpu.clock.cpassed(), 5);
    let mut cpu = program(&[0xBD, 0xFE, 0x12]);
    cpu.x = 1;
    assert_eq!(cpu.step(), Ok(false));
    assert_eq!(cpu.clock.cpassed(), 4);
    // LDA ($10),Y
    let mut cpu = program(&[0xB1, 0x10]);
    cpu.y = 0x02;
    cpu.bus.store(0x0010, 0xFF);
    cpu.bus.store(0x0011, 0x12);
    cpu.bus.store(0x1301, 0x55);
    assert_eq!(cpu.step(), Ok(false));
    assert_eq!(cpu.accumulator, 0x55);
    assert_eq!(cpu.clock.cpassed(), 6);
    cpu.pc = 0x0200;
    cpu.y = 0x00;
    assert_eq!(cpu.step(), Ok(false));
    assert_eq!(cpu.clock.cpassed(), 6 + 5);
    // STA $12FF,X and STA ($10),Y
    let mut cpu = program(&[0x9D, 0xFF, 0x12, 0x9D, 0x00, 0x12, 0x91, 0x10]);
    cpu.x = 1;
    cpu.accumulator = 0x99;
    assert_eq!(cpu.step(), Ok(false));
    assert_eq!(cpu.bus.load(0x1300), 0x99);
    assert_eq!(cpu.clock.cpassed(), 5);
    assert_eq!(cpu.step(), Ok(false));
    assert_eq!(cpu.clock.cpassed(), 10);
    assert_eq!(cpu.step(), Ok(false));
    assert_eq!(cpu.clock.cpassed(), 16);
    // INC $12FF,X takes seven cycles whether or not it crosses
    let mut cpu = program(&[0xFE, 0xFF, 0x12, 0xFE, 0x00, 0x12]);
    cpu.x = 1;
    assert_eq!(cpu.run(2), Ok(false));
    assert_eq!(cpu.clock.cpassed(), 14);
    assert_eq!(cpu.bus.load(0x1300), 1);
    assert_eq!(cpu.bus.load(0x1201), 1);
}

#[test]
fn zero_page_indexing_wraps_within_the_zero_page() {
    // LDA $FF,X with X = 2 reads $01
    let mut cpu = program(&[0xB5, 0xFF]);
    cpu.x = 2;
    cpu.bus.store(0x0001, 0x11);
    cpu.bus.store(0x0101, 0x22);
    assert_eq!(cpu.step(), Ok(false));
    assert_eq!(cpu.accumulator, 0x11);
    assert_eq!(cpu.clock.cpassed(), 4);
    // LDX $FF,Y with Y = 2 reads $01
    let mut cpu = program(&[0xB6, 0xFF]);
    cpu.y = 2;
    cpu.bus.store(0x0001, 0x11);
    cpu.bus.store(0x0101, 0x22);
    assert_eq!(cpu.step(), Ok(false));
    assert_eq!(cpu.x, 0x11);
    assert_eq!(cpu.clock.cpassed(), 4);
    // LDA ($FF,X) with X = 0 takes its pointer from $FF and $00
    let mut cpu = program(&[0xA1, 0xFF]);
    cpu.bus.store(0x00FF, 0x34);
    cpu.bus.store(0x0000, 0x12);
    cpu.bus.store(0x0100, 0x56);
    cpu.bus.store(0x1234, 0x77);
    assert_eq!(cpu.step(), Ok(false));
    assert_eq!(cpu.accumulator, 0x77);
    assert_eq!(cpu.clock.cpassed(), 6);
    // LDA ($FF),Y takes its pointer from $FF and $00
    let mut cpu = program(&[0xB1, 0xFF]);
    cpu.y = 1;
    cpu.bus.store(0x00FF, 0x34);
    cpu.bus.store(0x0000, 0x12);
    cpu.bus.store(0x0100, 0x56);
    cpu.bus.store(0x1235, 0x78);
    assert_eq!(cpu.step(), Ok(false));
    assert_eq!(cpu.accumulator, 0x78);
    assert_eq!(cpu.clock.cpassed(), 5);
}

#[test]
fn compare_sets_carry_when_the_register_is_not_smaller() {
    for (opcode, register) in [(0xC9, 0), (0xE0, 1), (0xC0, 2)] {
        for (held, operand, expected) in [
            (0x10, 0x10, RESERVED | Z | C),
            (0x10, 0x0f, RESERVED | C),
            (0x10, 0x11, RESERVED | N),
            (0x80, 0x01, RESERVED | C),
            (0x00, 0xff, RESERVED),
        ] {
            let mut cpu = program(&[opcode, operand]);
            match register {
                0 => cpu.accumulator = held,
                1 => cpu.x = held,
                _ => cpu.y = held,
            }
            assert_eq!(cpu.step(), Ok(false));
            assert_eq!(cpu.status, expected);
            assert_eq!((cpu.accumulator, cpu.x, cpu.y).0 | cpu.x | cpu.y, held);
        }
    }
}

#[test]
fn bit_copies_the_two_high_bits_and_tests_the_mask() {
    let mut cpu = program(&[0x24, 0x10, 0x2C, 0x00, 0x30]);
    cpu.accumulator = 0x01;
    cpu.bus.store(0x0010, 0xC0);
    cpu.bus.store(0x3000, 0x01);
    cpu.status = RESERVED | C;
    assert_eq!(cpu.step(), Ok(false));
    assert_eq!(cpu.status, RESERVED | C | N | V | Z);
    assert_eq!(cpu.accumulator, 0x01);
    assert_eq!(cpu.clock.cpassed(), 3);
    assert_eq!(cpu.step(), Ok(false));
    assert_eq!(cpu.status, RESERVED | C);
    assert_eq!(cpu.clock.cpassed(), 7);
}

#[test]
fn shifts_and_rotates() {
    // ASL A
    let mut cpu = program(&[0x0A]);
    cpu.accumulator = 0x81;
    assert_eq!(cpu.step(), Ok(false));
    assert_eq!((cpu.accumulator, cpu.status), (0x02, RESERVED | C));
    // LSR A
    let mut cpu = program(&[0x4A]);
    cpu.accumulator = 0x01;
    assert_eq!(cpu.step(), Ok(false));
    assert_eq!((cpu.accumulator, cpu.status), (0x00, RESERVED | C | Z));
    // ROL A with carry
    let mut cpu = program(&[0x2A]);
    cpu.accumulator = 0x80;
    cpu.status = RESERVED | C;
    assert_eq!(cpu.step(), Ok(false));
    assert_eq!((cpu.accumulator, cpu.status), (0x01, RESERVED | C));
    // ROR A with carry
    let mut cpu = program(&[0x6A]);
    cpu.accumulator = 0x02;
    cpu.status = RESERVED | C;
    assert_eq!(cpu.step(), Ok(false));
    assert_eq!((cpu.accumulator, cpu.status), (0x81, RESERVED | N));
    assert_eq!(cpu.clock.cpassed(), 2);
    // ROR $10 takes the carry from the shifted value, not from the accumulator
    let mut cpu = program(&[0x66, 0x10]);
    cpu.accumulator = 0x00;
    cpu.bus.store(0x0010, 0x03);
    assert_eq!(cpu.step(), Ok(false));
    assert_eq!(cpu.bus.load(0x0010), 0x01);
    assert_eq!((cpu.accumulator, cpu.status), (0x00, RESERVED | C));
    assert_eq!(cpu.clock.cpassed(), 5);
    // ROL $1234,X
    let mut cpu = program(&[0x3E, 0x34, 0x12]);
    cpu.x = 1;
    cpu.accumulator = 0xff;
    cpu.bus.store(0x1235, 0x40);
    assert_eq!(cpu.step(), Ok(false));
    assert_eq!(cpu.bus.load(0x1235), 0x80);
    assert_eq!((cpu.accumulator, cpu.status), (0xff, RESERVED | N));
    assert_eq!(cpu.clock.cpassed(), 7);
}

#[test]
fn increments_and_decrements_wrap() {
    // INX; INY; DEX; DEY from the edges
    let mut cpu = program(&[0xE8, 0xC8, 0xCA, 0x88, 0x88]);
    cpu.x = 0xff;
    cpu.y = 0x7f;
    assert_eq!(cpu.step(), Ok(false));
    assert_eq!((cpu.x, cpu.status), (0x00, RESERVED | Z));
    assert_eq!(cpu.step(), Ok(false));
    assert_eq!((cpu.y, cpu.status), (0x80, RESERVED | N));
    assert_eq!(cpu.step(), Ok(false));
    assert_eq!((cpu.x, cpu.status), (0xff, RESERVED | N));
    assert_eq!(cpu.step(), Ok(false));
    assert_eq!((cpu.y, cpu.status), (0x7f, RESERVED));
    assert_eq!(cpu.clock.cpassed(), 8);
    // INC $10; DEC $11
    let mut cpu = program(&[0xE6, 0x10, 0xC6, 0x11]);
    cpu.bus.store(0x0010, 0xff);
    assert_eq!(cpu.step(), Ok(false));
    assert_eq!((cpu.bus.load(0x0010), cpu.status), (0x00, RESERVED | Z));
    assert_eq!(cpu.step(), Ok(false));
    assert_eq!((cpu.bus.load(0x0011), cpu.status), (0xff, RESERVED | N));
    assert_eq!(cpu.clock.cpassed(), 10);
}

#[test]
fn transfers_set_the_flags_except_txs() {
    // TXS with X = 0 leaves the flags alone
    let mut cpu = program(&[0x9A, 0xBA, 0xAA, 0xA8, 0x8A, 0x98]);
    cpu.x = 0x00;
    cpu.sp = 0x55;
    cpu.status = RESERVED | N;
    assert_eq!(cpu.step(), Ok(false));
    assert_eq!((cpu.sp, cpu.status), (0x00, RESERVED | N));
    // TSX
    assert_eq!(cpu.step(), Ok(false));
    assert_eq!((cpu.x, cpu.status), (0x00, RESERVED | Z));
    // TAX, TAY
    cpu.accumulator = 0x90;
    assert_eq!(cpu.step(), Ok(false));
    assert_eq!((cpu.x, cpu.status), (0x90, RESERVED | N));
    assert_eq!(cpu.step(), Ok(false));
    assert_eq!((cpu.y, cpu.status), (0x90, RESERVED | N));
    // TXA, TYA
    cpu.x = 0x01;
    cpu.y = 0x00;
    assert_eq!(cpu.step(), Ok(false));
    assert_eq!((cpu.accumulator, cpu.status), (0x01, RESERVED));
    assert_eq!(cpu.step(), Ok(false));
    assert_eq!((cpu.accumulator, cpu.status), (0x00, RESERVED | Z));
    assert_eq!(cpu.clock.cpassed(), 12);
}

#[test]
fn flag_instructions() {
    let mut cpu = program(&[0x38, 0x78, 0xF8, 0x18, 0x58, 0xD8, 0xB8, 0xEA]);
    cpu.status = RESERVED | V;
    assert_eq!(cpu.step(), Ok(false));
    assert_eq!(cpu.status, RESERVED | V | C);
    assert_eq!(cpu.step(), Ok(false));
    assert_eq!(cpu.status, RESERVED | V | C | I);
    assert_eq!(cpu.step(), Ok(false));
    assert_eq!(cpu.status, RESERVED | V | C | I | 0x08);
    assert_eq!(cpu.step(), Ok(false));
    assert_eq!(cpu.status, RESERVED | V | I | 0x08);
    assert_eq!(cpu.step(), Ok(false));
    assert_eq!(cpu.status, RESERVED | V | 0x08);
    assert_eq!(cpu.step(), Ok(false));
    assert_eq!(cpu.status, RESERVED | V);
    assert_eq!(cpu.step(), Ok(false));
    assert_eq!(cpu.status, RESERVED);
    assert_eq!(cpu.step(), Ok(false));
    assert_eq!(cpu.status, RESERVED);
    assert_eq!(cpu.pc, 0x0208);
    assert_eq!(cpu.clock.cpassed(), 16);
}

#[test]
fn logic() {
    let mut cpu = program(&[0x29, 0x0f, 0x09, 0x80, 0x49, 0x8a]);
    cpu.accumulator = 0x3c;
    assert_eq!(cpu.step(), Ok(false));
    assert_eq!((cpu.accumulator, cpu.status), (0x0c, RESERVED));
    assert_eq!(cpu.step(), Ok(false));
    assert_eq!((cpu.accumulator, cpu.status), (0x8c, RESERVED | N));
    assert_eq!(cpu.step(), Ok(false));
    assert_eq!((cpu.accumulator, cpu.status), (0x06, RESERVED));
    let mut cpu = program(&[0x49, 0xff]);
    cpu.accumulator = 0xff;
    assert_eq!(cpu.step(), Ok(false));
    assert_eq!((cpu.accumulator, cpu.status), (0x00, RESERVED | Z));
}

#[test]
fn stores() {
    // STA $10; STX $10,Y; STY $10,X; STA ($20,X); STA $1234,Y
    let mut cpu = program(&[0x85, 0x10, 0x96, 0x10, 0x94, 0x10, 0x81, 0x20, 0x99, 0x34, 0x12]);
    cpu.accumulator = 0xaa;
    cpu.x = 0x01;
    cpu.y = 0x02;
    cpu.bus.store(0x0021, 0x00);
    cpu.bus.store(0x0022, 0x30);
    cpu.status = 0xff;
    assert_eq!(cpu.run(5), Ok(false));
    assert_eq!(cpu.bus.load(0x0010), 0xaa);
    assert_eq!(cpu.bus.load(0x0012), 0x01);
    assert_eq!(cpu.bus.load(0x0011), 0x02);
    assert_eq!(cpu.bus.load(0x3000), 0xaa);
    assert_eq!(cpu.bus.load(0x1236), 0xaa);
    assert_eq!(cpu.status, 0xff);
    assert_eq!(cpu.clock.cpassed(), 3 + 4 + 4 + 6 + 5);
}

#[test]
fn the_stack_wraps_within_page_one() {
    let mut cpu = program(&[]);
    cpu.sp = 0x00;
    cpu.push(0x11);
    assert_eq!(cpu.sp, 0xff);
    assert_eq!(cpu.bus.load(0x0100), 0x11);
    cpu.push(0x22);
    assert_eq!(cpu.sp, 0xfe);
    assert_eq!(cpu.bus.load(0x01ff), 0x22);
    assert_eq!(cpu.pop(), 0x22);
    assert_eq!(cpu.pop(), 0x11);
    assert_eq!(cpu.sp, 0x00);
    cpu.push_u16(0xabcd);
    assert_eq!(cpu.sp, 0xfe);
    assert_eq!(cpu.bus.load(0x0100), 0xab);
    assert_eq!(cpu.bus.load(0x01ff), 0xcd);
    assert_eq!(cpu.bus.load(0x0000), 0x00);
    assert_eq!(cpu.bus.load(0x0200), 0x00);
    assert_eq!(cpu.pop_u16(), 0xabcd);
    assert_eq!(cpu.sp, 0x00);
}

#[test]
fn operands_are_fetched_across_the_end_of_memory() {
    let mut cpu = machine(&[(0xffff, 0xAD), (0x0000, 0x34), (0x0001, 0x12), (0x1234, 0x5a)]);
    cpu.pc = 0xffff;
    assert_eq!(
        cpu.fetch(),
        Ok(Instruction { opcode: Opcode::LDA, address: Address::Absolute(0x1234) })
    );
    assert_eq!(cpu.pc, 0x0002);
    let mut cpu = machine(&[(0xfffe, 0xAD), (0xffff, 0x34), (0x0000, 0x12), (0x1234, 0x5a)]);
    cpu.pc = 0xfffe;
    assert_eq!(cpu.step(), Ok(false));
    assert_eq!(cpu.accumulator, 0x5a);
    assert_eq!(cpu.pc, 0x0001);
    assert_eq!(cpu.load_pc(), 0x00);
    cpu.pc = 0xffff;
    assert_eq!(cpu.load_pc_u16(), 0x1234);
    assert_eq!(cpu.pc, 0x0001);
}

#[test]
fn operand_resolvers() {
    let mut cpu = program(&[]);
    cpu.x = 0x01;
    cpu.y = 0x02;
    cpu.accumulator = 0x33;
    cpu.bus.store(0x0010, 0xaa);
    cpu.bus.store(0x0011, 0xbb);
    cpu.bus.store(0x0012, 0xcc);
    cpu.bus.store(0x1300, 0xdd);
    cpu.bus.store(0xbbaa, 0xee);
    cpu.bus.store(0xccbb, 0xff);
    cpu.bus.store(0xbbac, 0x99);
    assert_eq!(cpu.alu_operands(Address::Immediate(7)), Ok((7, 2)));
    assert_eq!(cpu.alu_operands(Address::Zero(0x10)), Ok((0xaa, 3)));
    assert_eq!(cpu.alu_operands(Address::ZeroX(0x10)), Ok((0xbb, 4)));
    assert_eq!(cpu.alu_operands(Address::Absolute(0x0012)), Ok((0xcc, 4)));
    assert_eq!(cpu.alu_operands(Address::AbsoluteX(0x12ff)), Ok((0xdd, 5)));
    assert_eq!(cpu.alu_operands(Address::AbsoluteX(0x000f)), Ok((0xaa, 4)));
    assert_eq!(cpu.alu_operands(Address::AbsoluteY(0x12fe)), Ok((0xdd, 5)));
    assert_eq!(cpu.alu_operands(Address::AbsoluteY(0x000f)), Ok((0xbb, 4)));
    assert_eq!(cpu.alu_operands(Address::IndirectX(0x10)), Ok((0xff, 6)));
    assert_eq!(cpu.alu_operands(Address::IndirectY(0x10)), Ok((0x99, 5)));
    assert_eq!(cpu.alu_operands(Address::ZeroY(0x10)), Err(CpuError::IllegalAddressingMode));
    assert_eq!(cpu.alu_operands(Address::Implied), Err(CpuError::IllegalAddressingMode));
    assert_eq!(cpu.alu_operands(Address::Accumulator), Err(CpuError::IllegalAddressingMode));
    assert_eq!(cpu.alu_operands(Address::Relative(1)), Err(CpuError::IllegalAddressingMode));
    assert_eq!(cpu.alu_operands(Address::Indirect(1)), Err(CpuError::IllegalAddressingMode));

    assert_eq!(cpu.shift_operands(Address::Accumulator), Ok((0x33, 2, None)));
    assert_eq!(cpu.shift_operands(Address::Zero(0x10)), Ok((0xaa, 5, Some(0x0010))));
    assert_eq!(cpu.shift_operands(Address::ZeroX(0xff)), Ok((0x00, 6, Some(0x0000))));
    assert_eq!(cpu.shift_operands(Address::Absolute(0x1300)), Ok((0xdd, 6, Some(0x1300))));
    assert_eq!(cpu.shift_operands(Address::AbsoluteX(0x12ff)), Ok((0xdd, 7, Some(0x1300))));
    assert_eq!(cpu.shift_operands(Address::AbsoluteX(0xffff)), Ok((0x00, 7, Some(0x0000))));
    assert_eq!(cpu.shift_operands(Address::Immediate(1)), Err(CpuError::IllegalAddressingMode));
    assert_eq!(cpu.shift_operands(Address::AbsoluteY(1)), Err(CpuError::IllegalAddressingMode));
    assert_eq!(cpu.shift_operands(Address::Implied), Err(CpuError::IllegalAddressingMode));

    assert_eq!(cpu.store_operands(Address::Zero(0x10)), Ok((0x0010, 3)));
    assert_eq!(cpu.store_operands(Address::ZeroX(0xff)), Ok((0x0000, 4)));
    assert_eq!(cpu.store_operands(Address::ZeroY(0xff)), Ok((0x0001, 4)));
    assert_eq!(cpu.store_operands(Address::Absolute(0x1234)), Ok((0x1234, 4)));
    assert_eq!(cpu.store_operands(Address::AbsoluteX(0x12ff)), Ok((0x1300, 5)));
    assert_eq!(cpu.store_operands(Address::AbsoluteY(0xffff)), Ok((0x0001, 5)));
    assert_eq!(cpu.store_operands(Address::IndirectX(0x10)), Ok((0xccbb, 6)));
    assert_eq!(cpu.store_operands(Address::IndirectY(0x10)), Ok((0xbbac, 6)));
    assert_eq!(cpu.store_operands(Address::Immediate(1)), Err(CpuError::IllegalAddressingMode));
    assert_eq!(cpu.store_operands(Address::Accumulator), Err(CpuError::IllegalAddressingMode));
}

#[test]
fn flag_getters_and_setters() {
    let mut cpu = program(&[]);
    cpu.status = 0x00;
    cpu.set_negative(true);
    assert_eq!(cpu.status, 0x80);
    assert!(cpu.negative());
    cpu.set_overflow(true);
    assert_eq!(cpu.status, 0xc0);
    assert!(cpu.overflow());
    cpu.set_reserved(true);
    assert_eq!(cpu.status, 0xe0);
    assert!(cpu.reserved());
    cpu.set_break(true);
    assert_eq!(cpu.status, 0xf0);
    assert!(cpu.break_flag());
    cpu.set_decimal(true);
    assert_eq!(cpu.status, 0xf8);
    assert!(cpu.decimal());
    cpu.set_interrupt_disable(true);
    assert_eq!(cpu.status, 0xfc);
    assert!(cpu.interrupt_disable());
    cpu.set_zero(true);
    assert_eq!(cpu.status, 0xfe);
    assert!(cpu.zero());
    cpu.set_carry(true);
    assert_eq!(cpu.status, 0xff);
    assert!(cpu.carry());
    cpu.set_negative(false);
    assert_eq!(cpu.status, 0x7f);
    assert!(!cpu.negative());
    cpu.set_overflow(false);
    assert_eq!(cpu.status, 0x3f);
    cpu.set_reserved(false);
    assert_eq!(cpu.status, 0x1f);
    assert!(!cpu.reserved());
    cpu.set_break(false);
    assert_eq!(cpu.status, 0x0f);
    cpu.set_decimal(false);
    assert_eq!(cpu.status, 0x07);
    cpu.set_interrupt_disable(false);
    assert_eq!(cpu.status, 0x03);
    cpu.set_zero(false);
    assert_eq!(cpu.status, 0x01);
    cpu.set_carry(false);
    assert_eq!(cpu.status, 0x00);
    assert!(!cpu.carry() && !cpu.zero() && !cpu.overflow() && !cpu.break_flag());
}
