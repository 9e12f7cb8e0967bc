use r6502::{
    decode, get_flag, make_word, read_dword, read_word, set_flag, split_word, write_dword,
    DummyMonitor, Memory, Reg, Vm, VmState, FLAG_B, FLAG_C, FLAG_I, FLAG_N, FLAG_Z, IRQ,
    MAX_INSTRUCTION_CYCLES,
};

fn blank_state() -> VmState {
    VmState::new(Reg::default(), Memory::new())
}

#[test]
fn split_word_undoes_make_word() {
    assert_eq!((0x12, 0x34), split_word(make_word(0x12, 0x34)));
    assert_eq!(0xbeef, {
        let (hi, lo) = split_word(0xbeef);
        make_word(hi, lo)
    });
}

#[test]
fn pull_undoes_push() {
    let mut s = blank_state();
    s.reg.sp = 0x00;
    s.push(0x5a);
    assert_eq!(0xff, s.reg.sp);
    assert_eq!(0x5a, s.memory.load(0x0100));
    assert_eq!(0x5a, s.pull());
    assert_eq!(0x00, s.reg.sp);
}

#[test]
fn pull_word_undoes_push_word() {
    let mut s = blank_state();
    s.reg.sp = 0xfd;
    s.push_word(0xc0de);
    assert_eq!(0xfb, s.reg.sp);
    assert_eq!(0xc0de, s.peek_word());
    assert_eq!(0xc0de, s.pull_word());
    assert_eq!(0xfd, s.reg.sp);
    s.reg.sp = 0x01;
    s.push_word(0x1234);
    assert_eq!(0xff, s.reg.sp);
    assert_eq!(0x1234, s.pull_word());
}

#[test]
fn read_dword_after_write_dword() {
    let mut s = blank_state();
    write_dword(&mut s, 0x0400, 10, 0x89ab_cdef);
    assert_eq!(0x89ab_cdef, read_dword(&s, 0x0400, 10));
    assert_eq!(0xcdef, read_word(&s, 0x0400, 10));
    assert_eq!(0xef, s.memory.load(0x040a));
    assert_eq!(0x89, s.memory.load(0x040d));
    write_dword(&mut s, 0xfffe, 0, 0x0403_0201);
    assert_eq!(0x0403_0201, read_dword(&s, 0xfffe, 0));
    assert_eq!(0x03, s.memory.load(0x0000));
}

#[test]
fn load_after_store() {
    let mut m = Memory::new();
    m.store(0x1234, 7);
    m.store(0x1235, 8);
    assert_eq!(7, m.load(0x1234));
    assert_eq!(8, m.load(0x1235));
    assert_eq!(0, m.load(0x1236));
}

#[test]
fn no_instruction_takes_more_than_the_maximum() {
    let mut documented = 0;
    for opcode in 0..=255u8 {
        if let Some(instr) = decode(opcode) {
            documented += 1;
            assert!(u64::from(instr.cycles) + 1 <= MAX_INSTRUCTION_CYCLES);
        }
    }
    assert_eq!(151, documented);
}

#[test]
fn jsr_then_rts_returns_after_the_call() {
    let mut vm = Vm::new(DummyMonitor, blank_state());
    vm.s.memory.store(0x0800, 0x20);
    vm.s.memory.store(0x0801, 0x00);
    vm.s.memory.store(0x0802, 0x30);
    vm.s.memory.store(0x3000, 0x60);
    vm.s.reg.pc = 0x0800;
    vm.s.reg.sp = 0xff;
    vm.s.reg.a = 9;
    vm.s.reg.p = 0x24;
    assert!(!vm.step());
    assert_eq!(0x3000, vm.s.reg.pc);
    assert_eq!(0xfd, vm.s.reg.sp);
    assert!(!vm.step());
    assert_eq!(0x0803, vm.s.reg.pc);
    assert_eq!(0xff, vm.s.reg.sp);
    assert_eq!(9, vm.s.reg.a);
    assert_eq!(0x24, vm.s.reg.p);
    assert_eq!(12, vm.total_cycles);
}

#[test]
fn brk_then_rti_resumes_two_bytes_on() {
    let mut vm = Vm::new(DummyMonitor, blank_state());
    vm.s.memory.store(IRQ, 0x00);
    vm.s.memory.store(IRQ + 1, 0x70);
    vm.s.memory.store(0x7000, 0x40);
    vm.s.memory.store(0x0600, 0x00);
    vm.s.reg.pc = 0x0600;
    vm.s.reg.sp = 0x80;
    vm.s.reg.p = 0x81;
    assert!(!vm.step());
    assert_eq!(0x7000, vm.s.reg.pc);
    assert!(get_flag(vm.s.reg.p, FLAG_I));
    assert!(vm.step());
    assert_eq!(0x0602, vm.s.reg.pc);
    assert_eq!(0x80, vm.s.reg.sp);
    assert_eq!(0x81, vm.s.reg.p);
    assert_eq!(13, vm.total_cycles);
}

#[test]
fn setting_a_flag_leaves_the_others() {
    let p = FLAG_N | FLAG_C;
    let q = set_flag(p, FLAG_Z, true);
    assert!(get_flag(q, FLAG_Z));
    assert!(get_flag(q, FLAG_N));
    assert!(get_flag(q, FLAG_C));
    let r = set_flag(q, FLAG_N, false);
    assert!(!get_flag(r, FLAG_N));
    assert!(get_flag(r, FLAG_Z));
    assert!(!get_flag(r, FLAG_B));
}
