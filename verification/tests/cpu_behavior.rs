use nes_core::bus::FlatBus;
use nes_core::cpu::{
    indexed, Cpu2A03, DecodeError, CARRY, INTERRUPT_DISABLE, NEGATIVE, OVERFLOW, ZERO,
};

fn flat_cpu() -> Cpu2A03<FlatBus> {
    Cpu2A03::new(FlatBus::new())
}

#[test]
fn indexed_page_crossing() {
    assert_eq!(indexed(0x01FF, 1), (0x0200, true));
    assert_eq!(indexed(0x0100, 1), (0x0101, false));
}

#[test]
fn abs_x_reports_page_crossing() {
    let mut cpu = flat_cpu();
    cpu.pc = 0x0200;
    cpu.bus.mem[0x0200] = 0xFF; // operand low
    cpu.bus.mem[0x0201] = 0x01; // operand high: base 0x01FF
    cpu.x = 1;
    let (addr, crossed) = cpu.abs_x();
    assert_eq!(addr, 0x0200);
    assert!(crossed);
    assert_eq!(cpu.pc, 0x0202);

    let mut cpu = flat_cpu();
    cpu.pc = 0x0200;
    cpu.bus.mem[0x0200] = 0x00;
    cpu.bus.mem[0x0201] = 0x01; // base 0x0100
    cpu.x = 1;
    let (addr, crossed) = cpu.abs_x();
    assert_eq!(addr, 0x0101);
    assert!(!crossed);
}

#[test]
fn adc_signed_overflow() {
    let mut cpu = flat_cpu();
    cpu.a = 0x50;
    cpu.status = 0x00; // carry-in 0
    cpu.adc(0x50);
    assert_eq!(cpu.a, 0xA0);
    assert_eq!(cpu.status & CARRY, 0);
    assert_ne!(cpu.status & OVERFLOW, 0);
    assert_ne!(cpu.status & NEGATIVE, 0);
    assert_eq!(cpu.status & ZERO, 0);
}

#[test]
fn adc_carry_out() {
    let mut cpu = flat_cpu();
    cpu.a = 0xFF;
    cpu.status = CARRY;
    cpu.adc(0x00);
    assert_eq!(cpu.a, 0x00);
    assert_ne!(cpu.status & CARRY, 0);
    assert_ne!(cpu.status & ZERO, 0);
    assert_eq!(cpu.status & OVERFLOW, 0);
}

#[test]
fn sbc_matches_adc_of_complement() {
    let mut cpu = flat_cpu();
    cpu.a = 0x50;
    cpu.status = CARRY; // no borrow
    cpu.sbc(0xF0);
    assert_eq!(cpu.a, 0x60); // 0x50 + 0x0F + 1
    // the sum 0x60 does not exceed 0xFF, so no carry comes out: the
    // subtraction borrowed (0x50 < 0xF0)
    assert_eq!(cpu.status & CARRY, 0);
    assert_eq!(cpu.status & OVERFLOW, 0);

    let mut other = flat_cpu();
    other.a = 0x50;
    other.status = CARRY;
    other.adc(!0xF0u8);
    assert_eq!(cpu.a, other.a);
    assert_eq!(cpu.status, other.status);
}

#[test]
fn sbc_with_borrow() {
    let mut cpu = flat_cpu();
    cpu.a = 0x10;
    cpu.status = 0x00; // borrow pending (carry clear)
    cpu.sbc(0x20);
    // 0x10 - 0x20 - 1 = -0x11 -> 0xEF, borrow occurred so carry stays clear
    assert_eq!(cpu.a, 0xEF);
    assert_eq!(cpu.status & CARRY, 0);
    assert_ne!(cpu.status & NEGATIVE, 0);
}

#[test]
fn brk_pushes_and_vectors() {
    let mut cpu = flat_cpu();
    cpu.pc = 0x8000;
    cpu.status = 0x24;
    cpu.sp = 0xFD;
    cpu.bus.mem[0x8000] = 0x00; // BRK
    cpu.bus.mem[0xFFFE] = 0x34;
    cpu.bus.mem[0xFFFF] = 0x12;
    let r = cpu.step();
    assert_eq!(r, Ok(8)); // 2-byte instruction plus the 7-cycle sequence
    assert_eq!(cpu.bus.mem[0x01FD], 0x80); // return address high
    assert_eq!(cpu.bus.mem[0x01FC], 0x02); // return address low: 0x8002
    assert_eq!(cpu.bus.mem[0x01FB], 0x34); // 0x24 | 0x20 unused | 0x10 break
    assert_ne!(cpu.status & INTERRUPT_DISABLE, 0);
    assert_eq!(cpu.pc, 0x1234);
    assert_eq!(cpu.sp, 0xFA);
}

#[test]
fn nmi_beats_irq_and_irq_stays_pending() {
    let mut cpu = flat_cpu();
    cpu.status = 0x00;
    cpu.pc = 0x4000;
    cpu.bus.mem[0xFFFA] = 0x00;
    cpu.bus.mem[0xFFFB] = 0x90; // NMI vector 0x9000
    cpu.bus.mem[0xFFFE] = 0x00;
    cpu.bus.mem[0xFFFF] = 0xA0; // IRQ vector 0xA000
    cpu.bus.mem[0x9000] = 0x1A; // NOP at the NMI handler
    cpu.trigger_irq();
    cpu.trigger_nmi();
    assert!(cpu.nmi_pending && cpu.irq_pending);
    let r = cpu.step();
    assert_eq!(r, Ok(7));
    assert_eq!(cpu.pc, 0x9000); // NMI won
    assert!(!cpu.nmi_pending);
    assert!(cpu.irq_pending); // still latched for the following step
    let r2 = cpu.step();
    // interrupts are now disabled, so the NOP runs and the IRQ stays latched
    assert_eq!(r2, Ok(2));
    assert!(cpu.irq_pending);
}

#[test]
fn irq_respects_interrupt_disable() {
    let mut cpu = flat_cpu();
    cpu.status = 0x34; // interrupts disabled at power-up
    cpu.trigger_irq();
    assert!(!cpu.irq_pending);
    cpu.status = 0x00;
    cpu.trigger_irq();
    assert!(cpu.irq_pending);
}

#[test]
fn unknown_opcode_is_reported_not_fatal() {
    let mut cpu = flat_cpu();
    cpu.status = 0x34;
    cpu.pc = 0x1234;
    cpu.bus.mem[0x1234] = 0xFF;
    let r = cpu.step();
    assert_eq!(r, Err(DecodeError { opcode: 0xFF, pc: 0x1234 }));
    assert_eq!(cpu.pc, 0x1234); // nothing executed
}

#[test]
fn lda_sta_tax_program() {
    let mut cpu = flat_cpu();
    cpu.status = 0x34;
    cpu.pc = 0x8000;
    let program = [0xA9, 0xFF, 0x8D, 0x00, 0x00, 0xAA];
    for (i, b) in program.iter().enumerate() {
        cpu.bus.mem[0x8000 + i] = *b;
    }
    assert_eq!(cpu.step(), Ok(2)); // LDA #$FF
    assert_eq!(cpu.a, 0xFF);
    assert_ne!(cpu.status & NEGATIVE, 0);
    assert_eq!(cpu.step(), Ok(4)); // STA $0000
    assert_eq!(cpu.bus.mem[0x0000], 0xFF);
    assert_eq!(cpu.step(), Ok(2)); // TAX
    assert_eq!(cpu.x, 0xFF);
    assert_eq!(cpu.pc, 0x8006);
    assert_eq!(cpu.cycles, 8); // instruction costs accumulate
}

#[test]
fn lda_zero_sets_zero_flag() {
    let mut cpu = flat_cpu();
    cpu.lda(0);
    assert_ne!(cpu.status & ZERO, 0);
    assert_eq!(cpu.status & NEGATIVE, 0);
}

#[test]
fn alr_and_dcp_opcodes() {
    let mut cpu = flat_cpu();
    cpu.status = 0x34;
    cpu.pc = 0x8000;
    cpu.a = 0b1010_0111;
    cpu.bus.mem[0x8000] = 0x4B; // ALR #$F1
    cpu.bus.mem[0x8001] = 0xF1;
    assert_eq!(cpu.step(), Ok(2));
    // A & 0xF1 = 0xA1; carry takes bit 0 (1); A >>= 1 -> 0x50
    assert_eq!(cpu.a, 0x50);
    assert_ne!(cpu.status & CARRY, 0);
    assert_eq!(cpu.status & NEGATIVE, 0);

    let mut cpu = flat_cpu();
    cpu.status = 0x34;
    cpu.pc = 0x8000;
    cpu.a = 0x10;
    cpu.bus.mem[0x8000] = 0xC7; // DCP $20
    cpu.bus.mem[0x8001] = 0x20;
    cpu.bus.mem[0x0020] = 0x11;
    assert_eq!(cpu.step(), Ok(5));
    assert_eq!(cpu.bus.mem[0x0020], 0x10); // decremented
    assert_ne!(cpu.status & CARRY, 0); // A >= value
    assert_ne!(cpu.status & ZERO, 0); // A == value
    assert_eq!(cpu.pc, 0x8002);
}

#[test]
fn nop_variants() {
    let mut cpu = flat_cpu();
    cpu.status = 0x34;
    cpu.pc = 0x8000;
    cpu.bus.mem[0x8000] = 0x1A; // one-byte NOP
    cpu.bus.mem[0x8001] = 0x44; // NOP with a zero-page operand
    cpu.bus.mem[0x8002] = 0x20;
    assert_eq!(cpu.step(), Ok(2));
    assert_eq!(cpu.pc, 0x8001);
    assert_eq!(cpu.step(), Ok(3));
    assert_eq!(cpu.pc, 0x8003); // operand consumed
}

#[test]
fn reset_loads_vector() {
    let mut cpu = flat_cpu();
    cpu.bus.mem[0xFFFC] = 0x00;
    cpu.bus.mem[0xFFFD] = 0x80;
    cpu.sp = 0x10;
    cpu.status = 0xFF;
    cpu.reset();
    assert_eq!(cpu.pc, 0x8000);
    assert_eq!(cpu.sp, 0xFD);
    assert_eq!(cpu.status, 0x34);
    assert_eq!(cpu.cycles, 8); // reset charges 8 cycles
}

#[test]
fn sixteen_bit_read_wraps_at_top_of_memory() {
    let mut cpu = flat_cpu();
    cpu.bus.mem[0xFFFF] = 0x34;
    cpu.bus.mem[0x0000] = 0x12;
    assert_eq!(cpu.read_u16(0xFFFF), 0x1234);
}

#[test]
fn stack_wraps_within_page() {
    let mut cpu = flat_cpu();
    cpu.sp = 0x00;
    cpu.push(0xAB);
    assert_eq!(cpu.bus.mem[0x0100], 0xAB);
    assert_eq!(cpu.sp, 0xFF);
    let v = cpu.pop();
    assert_eq!(v, 0xAB);
    assert_eq!(cpu.sp, 0x00);
}

#[test]
fn zero_page_indexing_wraps() {
    let mut cpu = flat_cpu();
    cpu.pc = 0x0300;
    cpu.bus.mem[0x0300] = 0xF0;
    cpu.x = 0x20;
    assert_eq!(cpu.zpg_x(), 0x10);

    let mut cpu = flat_cpu();
    cpu.pc = 0x0300;
    cpu.bus.mem[0x0300] = 0xF0;
    cpu.y = 0x13;
    assert_eq!(cpu.zpg_y(), 0x03);
}

#[test]
fn indexed_indirect_pointer_wraps() {
    let mut cpu = flat_cpu();
    cpu.pc = 0x0300;
    cpu.bus.mem[0x0300] = 0xFE;
    cpu.x = 0x01; // pointer at 0xFF, high byte from 0x00
    cpu.bus.mem[0x00FF] = 0x34;
    cpu.bus.mem[0x0000] = 0x12;
    assert_eq!(cpu.idx_ind(), 0x1234);
}

#[test]
fn indirect_indexed_reports_crossing() {
    let mut cpu = flat_cpu();
    cpu.pc = 0x0300;
    cpu.bus.mem[0x0300] = 0x40;
    cpu.bus.mem[0x0040] = 0xFF;
    cpu.bus.mem[0x0041] = 0x01; // pointer 0x01FF
    cpu.y = 1;
    assert_eq!(cpu.ind_idx(), (0x0200, true));
}

#[test]
fn indirect_absolute_page_wrap_bug() {
    let mut cpu = flat_cpu();
    cpu.pc = 0x0300;
    cpu.bus.mem[0x0300] = 0xFF;
    cpu.bus.mem[0x0301] = 0x02; // pointer 0x02FF
    cpu.bus.mem[0x02FF] = 0x78;
    cpu.bus.mem[0x0200] = 0x56; // high byte from the start of the same page
    cpu.bus.mem[0x0300 + 0x0100] = 0x99; // 0x0400 would be the unbugged source
    assert_eq!(cpu.ind_abs(), 0x5678);
}

#[test]
fn relative_offset_is_signed() {
    let mut cpu = flat_cpu();
    cpu.pc = 0x0300;
    cpu.bus.mem[0x0300] = 0xFB;
    assert_eq!(cpu.rel(), -5);
}

#[test]
fn compare_sets_flags_without_storing() {
    let mut cpu = flat_cpu();
    cpu.a = 0x42;
    cpu.status = 0;
    cpu.compare(cpu.a, 0x42);
    assert_ne!(cpu.status & CARRY, 0);
    assert_ne!(cpu.status & ZERO, 0);
    assert_eq!(cpu.a, 0x42);
    cpu.compare(0x10, 0x20);
    assert_eq!(cpu.status & CARRY, 0);
    assert_ne!(cpu.status & NEGATIVE, 0);
}
