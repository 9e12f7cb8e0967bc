use r6502::{
    get_flag, make_word, DummyMonitor, Memory, Reg, Vm, VmState, FLAG_ALWAYS_ONE, FLAG_B,
    FLAG_D, FLAG_I, IRQ,
};

const NOP: u8 = 0xea;
const ADC_IMM: u8 = 0x69;
const ADC_ZP: u8 = 0x65;
const ADC_ABS: u8 = 0x6d;
const JMP_ABS: u8 = 0x4c;
const BRK: u8 = 0x00;
const JSR: u8 = 0x20;
const OSWRCH: u16 = 0xffee;

fn new_vm() -> Vm<DummyMonitor> {
    Vm::new(DummyMonitor, VmState::new(Reg::default(), Memory::new()))
}

#[test]
fn no_operand() {
    let mut vm = new_vm();
    vm.s.reg.a = 0x12;
    vm.s.memory.store(0x0000, NOP);
    assert!(vm.step());
    assert_eq!(2, vm.total_cycles);
    assert_eq!(0x12, vm.s.reg.a);
    assert_eq!(0x00, vm.s.reg.p);
    assert_eq!(0x0001, vm.s.reg.pc);
}

#[test]
fn byte0() {
    let mut vm = new_vm();
    vm.s.reg.a = 0x12;
    vm.s.memory.store(0x0000, ADC_IMM);
    vm.s.memory.store(0x0001, 0x34);
    assert!(vm.step());
    assert_eq!(2, vm.total_cycles);
    assert_eq!(0x46, vm.s.reg.a);
    assert_eq!(0x00, vm.s.reg.p);
    assert_eq!(0x0002, vm.s.reg.pc);
}

#[test]
fn byte1() {
    let mut vm = new_vm();
    vm.s.reg.a = 0x12;
    vm.s.memory.store(0x0000, ADC_ZP);
    vm.s.memory.store(0x0001, 0x34);
    vm.s.memory.store(0x0034, 0x56);
    assert!(vm.step());
    assert_eq!(3, vm.total_cycles);
    assert_eq!(0x68, vm.s.reg.a);
    assert_eq!(0x00, vm.s.reg.p);
    assert_eq!(0x0002, vm.s.reg.pc);
}

#[test]
fn word0() {
    let mut vm = new_vm();
    vm.s.reg.a = 0x12;
    vm.s.memory.store(0x0000, JMP_ABS);
    vm.s.memory.store(0x0001, 0x00);
    vm.s.memory.store(0x0002, 0x10);
    assert!(vm.step());
    assert_eq!(3, vm.total_cycles);
    assert_eq!(0x12, vm.s.reg.a);
    assert_eq!(0x00, vm.s.reg.p);
    assert_eq!(0x1000, vm.s.reg.pc);
}

#[test]
fn word1() {
    let mut vm = new_vm();
    vm.s.reg.a = 0x25;
    vm.s.memory.store(0x0000, ADC_ABS);
    vm.s.memory.store(0x0001, 0x12);
    vm.s.memory.store(0x0002, 0x34);
    vm.s.memory.store(0x3412, 0x13);
    assert!(vm.step());
    assert_eq!(4, vm.total_cycles);
    assert_eq!(0x38, vm.s.reg.a);
    assert_eq!(0x00, vm.s.reg.p);
    assert_eq!(0x0003, vm.s.reg.pc);
}

#[test]
fn brk() {
    let mut vm = new_vm();
    vm.s.reg.pc = 0x1000;
    vm.s.memory.store(0x1000, BRK);
    vm.s.memory.store(IRQ, 0x76);
    vm.s.memory.store(IRQ + 1, 0x98);
    vm.s.reg.p &= !FLAG_B;
    assert!(!vm.step());
    assert_eq!(7, vm.total_cycles);
    assert!(!get_flag(vm.s.reg.p, FLAG_B));
    assert_eq!(0x9876, vm.s.reg.pc);
}

#[test]
fn jsr_brk() {
    const IRQ_ADDR: u16 = 0x7000;
    const START: u16 = 0x1000;
    let p_test = FLAG_D | FLAG_ALWAYS_ONE;

    let mut vm = new_vm();

    // The operating system: IRQ handler address and a BRK at each OS vector.
    vm.s.memory.store(IRQ, IRQ_ADDR as u8);
    vm.s.memory.store(IRQ + 1, (IRQ_ADDR >> 8) as u8);
    vm.s.memory.store(OSWRCH, BRK);

    vm.s.memory.store(START, JSR);
    vm.s.memory.store(START + 1, OSWRCH as u8);
    vm.s.memory.store(START + 2, (OSWRCH >> 8) as u8);

    vm.s.reg.pc = START;
    vm.s.reg.p = p_test;
    vm.s.reg.p &= !FLAG_B;

    assert!(vm.step());
    assert_eq!(6, vm.total_cycles);
    assert!(!get_flag(vm.s.reg.p, FLAG_B));
    assert_eq!(OSWRCH, vm.s.reg.pc);

    assert!(!vm.step());
    assert_eq!(13, vm.total_cycles);
    assert!(!get_flag(vm.s.reg.p, FLAG_B));
    assert_eq!(IRQ_ADDR, vm.s.reg.pc);
    // The BRK pushed the address two past the OS vector, above the saved P.
    assert_eq!(OSWRCH, vm.s.peek_back_word(1).wrapping_sub(2));
    assert!(get_flag(vm.s.reg.p, FLAG_I));
}

#[test]
fn make_word_basics() {
    assert_eq!(0x1234, make_word(0x12, 0x34));
}
