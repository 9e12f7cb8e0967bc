use r6502::{
    debugger_key, DebugKey, snapshot_bytes, output_char_text, route_key, show_image_info, show_run_info, AfterStep, CpuState, DebugHost,
    DebugMessage, DebugState, ImageInfo, KeyOutcome, MessageOutcome, RunOptions, UiKey,
    catalogue_lines, format_snapshot, resolve_dir, return_from_host_hook, AddressSize,
    AddressValue, BusEvent, Checked, DummyMonitor, EventOutcome, Export, ExportKind,
    ExportListInfo, HostHookAction, Memory, Reg, Runner, ScenarioFilter, ScenarioFilterError,
    SimpleOutput, State, StopReason, TerminalOutput, VduDriver, VduOutput, Vectors, Vm, VmState,
    FILEV_HOST_HOOK, HOOK_BRK, OSAREG,
};

fn export(name: &str, value: u32, referenced: bool, kind: ExportKind, address_size: AddressSize) -> Export {
    Export { name: String::from(name), value, referenced, kind, address_size }
}

#[test]
fn export_list_info_toggles_between_orders() {
    let exports = vec![
        export("b", 0x10, true, ExportKind::Label, AddressSize::ZeroPage),
        export("a", 0x2000, false, ExportKind::Constant, AddressSize::Absolute),
        export("c", 0x10, true, ExportKind::Label, AddressSize::Far),
    ];
    let mut info = ExportListInfo::new(&exports);
    assert_eq!(
        "a = $2000 (constant) (unreferenced)\nb = $10 (label)\nc = $000010 (label)",
        info.toggle()
    );
    assert_eq!(
        "b = $10 (label)\nc = $000010 (label)\na = $2000 (constant) (unreferenced)",
        info.toggle()
    );
    assert_eq!(
        "a = $2000 (constant) (unreferenced)\nb = $10 (label)\nc = $000010 (label)",
        info.toggle()
    );
}

#[test]
fn export_list_info_empty() {
    let mut info = ExportListInfo::new(&Vec::new());
    assert_eq!("", info.toggle());
    assert_eq!("", info.toggle());
}

#[test]
fn state_to_string() {
    let state = State {
        pc: 0x1234,
        sp: 0xfd,
        a: 0x2a,
        x: 0,
        y: 255,
        p: 0x24,
        ram: vec![
            AddressValue { address: 0x0201, value: 7 },
            AddressValue { address: 0x0200, value: 0x80 },
        ],
    };
    assert_eq!(
        "  pc: $1234 (4660)\n  s : $FD  (253)\n  a : $2A  (42)\n  x : $00  (0)\n  y : $FF  (255)\n  p : 36 (0b00100100) ($24) (36)\n    0200 80 (128)\n    0201 07 (7)\n",
        state.to_string()
    );
}

#[test]
fn vdu_plain_bytes_pass_through() {
    let mut vdu = VduDriver::default();
    assert_eq!(VduOutput::Char(b'A'), vdu.process(b'A'));
    assert_eq!(VduOutput::Char(13), vdu.process(13));
    assert_eq!(VduOutput::Char(127), vdu.process(127));
    assert_eq!(VduOutput::Char(200), vdu.process(200));
}

#[test]
fn vdu_action_codes() {
    let mut vdu = VduDriver::default();
    assert_eq!(VduOutput::Action(12, vec![]), vdu.process(12));
    assert_eq!(VduOutput::Pending, vdu.process(17));
    assert_eq!(VduOutput::Action(17, vec![1]), vdu.process(1));
    assert_eq!(VduOutput::Char(b'x'), vdu.process(b'x'));
}

#[test]
fn vdu_unimplemented_codes() {
    let mut vdu = VduDriver::default();
    assert_eq!(VduOutput::Pending, vdu.process(31));
    assert_eq!(VduOutput::Pending, vdu.process(10));
    assert_eq!(
        VduOutput::Unimplemented(String::from(
            "[VDU 31, 10, 5 (Move text cursor to x, y) unimplemented]"
        )),
        vdu.process(5)
    );
    assert_eq!(VduOutput::Pending, vdu.process(1));
    assert_eq!(
        VduOutput::Unimplemented(String::from(
            "[VDU 1, 65 (Send next character to printer only) unimplemented]"
        )),
        vdu.process(65)
    );
    assert_eq!(VduOutput::Char(65), vdu.process(65));
}

#[test]
fn vdu_code_with_nine_arguments() {
    let mut vdu = VduDriver::default();
    assert_eq!(VduOutput::Pending, vdu.process(23));
    for b in 0..8u8 {
        assert_eq!(VduOutput::Pending, vdu.process(b));
    }
    assert_eq!(
        VduOutput::Unimplemented(String::from(
            "[VDU 23, 0, 1, 2, 3, 4, 5, 6, 7, 8 (Re-program display character + various other fn's) unimplemented]"
        )),
        vdu.process(8)
    );
}

#[test]
fn terminal_output_devices() {
    let mut out = TerminalOutput::default();
    assert_eq!(VduOutput::Char(12), out.process(false, 12));
    assert_eq!(VduOutput::Action(12, vec![]), out.process(true, 12));
    assert_eq!(vec![13, 10], TerminalOutput::encode(0x0a));
    assert_eq!(vec![65, 66], TerminalOutput::encode(127));
    assert_eq!(vec![b'Z'], TerminalOutput::encode(b'Z'));
    assert_eq!(vec![13, 10], SimpleOutput::encode(0x0a));
    assert_eq!(vec![127], SimpleOutput::encode(127));
}

#[test]
fn scenario_filter_without_filter_lists_json_files() {
    let names = vec![
        String::from("b.json"),
        String::from("notes.txt"),
        String::from("a.json"),
        String::from(".json"),
        String::from("c.json.bak"),
    ];
    let f = ScenarioFilter::new("/data/scenarios", &None, &names).unwrap();
    assert_eq!(
        vec![String::from("/data/scenarios/a.json"), String::from("/data/scenarios/b.json")],
        f.paths
    );
    assert_eq!(None, f.scenario_name);
    assert!(f.skipped_scenario_names.is_empty());
    assert!(f.keeps(&String::from("anything")));
}

#[test]
fn scenario_filter_for_opcode() {
    let f = ScenarioFilter::new("/data/", &Some(String::from("A9")), &Vec::new()).unwrap();
    assert_eq!(vec![String::from("/data/a9.json")], f.paths);
    assert_eq!(None, f.scenario_name);
    let f = ScenarioFilter::new("d", &Some(String::from("+7")), &Vec::new()).unwrap();
    assert_eq!(vec![String::from("d/07.json")], f.paths);
}

#[test]
fn scenario_filter_for_one_scenario() {
    let filter = Some(String::from("a9 12 34 56"));
    let f = ScenarioFilter::new("/data", &filter, &Vec::new()).unwrap();
    assert_eq!(vec![String::from("/data/a9.json")], f.paths);
    assert_eq!(Some(String::from("a9 12 34 56")), f.scenario_name);
    assert!(f.keeps(&String::from("a9 12 34 56")));
    assert!(!f.keeps(&String::from("a9 12 34 57")));
}

#[test]
fn scenario_filter_rejects_bad_opcodes() {
    for s in ["zz", "100", "", " a9", "-1"] {
        let r = ScenarioFilter::new("/data", &Some(String::from(s)), &Vec::new());
        assert_eq!(Some(ScenarioFilterError::InvalidOpcode), r.err(), "{s}");
    }
}

#[test]
fn cursive_tui_format_snapshot() {
    let bytes = (0x00..=0x20).collect::<Vec<u8>>();
    let s = format_snapshot(0x0e00, 0x0e20, &bytes);
    assert_eq!(
        "$0E00:$0E20\n\
        0E00  00 01 02 03 04 05 06 07 08 09 0A 0B 0C 0D 0E 0F  ................\n\
        0E10  10 11 12 13 14 15 16 17 18 19 1A 1B 1C 1D 1E 1F  ................\n\
        0E20  20                                                \n",
        s
    );
}

#[test]
fn format_snapshot_printable_characters() {
    let s = format_snapshot(0x0200, 0x0203, &vec![0x41, 0x7e, 0x7f, 0x80]);
    assert_eq!(
        "$0200:$0203\n0200  41 7E 7F 80                                      A~..\n",
        s
    );
    assert_eq!("$0000:$0000\n", format_snapshot(0, 0, &Vec::new()));
}

fn vm_with(program: &[(u16, u8)]) -> Vm<DummyMonitor> {
    let mut memory = Memory::new();
    for (addr, b) in program {
        memory.store(*addr, *b);
    }
    let mut reg = Reg::default();
    reg.pc = 0x1000;
    Vm::new(DummyMonitor, VmState::new(reg, memory))
}

const NOP: u8 = 0xea;

#[test]
fn runner_stops_after_requested_cycles() {
    let runner = Runner { stop_after: Some(2), halt_addr: None, host_hook_addr: None, write_char_addr: None };
    let mut vm = vm_with(&[(0x1000, NOP)]);
    assert_eq!(EventOutcome::Continue, runner.step(&mut vm, None));
    assert_eq!(
        Ok(Checked::Stop(StopReason::RequestedCyclesExecuted { total_cycles: 2 })),
        runner.check(&mut vm)
    );
}

#[test]
fn runner_halts_at_halt_address() {
    let runner = Runner { stop_after: Some(100), halt_addr: Some(0x1001), host_hook_addr: None, write_char_addr: None };
    let mut vm = vm_with(&[(0x1000, NOP)]);
    vm.s.reg.a = 42;
    assert_eq!(EventOutcome::Continue, runner.step(&mut vm, None));
    let stop = StopReason::Halt { total_cycles: 2, a: 42 };
    assert_eq!(Ok(Checked::Stop(stop)), runner.check(&mut vm));
    assert_eq!(42, stop.exit_code());
    assert_eq!(2, stop.total_cycles());
}

#[test]
fn runner_handles_bus_events() {
    let runner = Runner { stop_after: None, halt_addr: None, host_hook_addr: None, write_char_addr: None };
    let mut vm = vm_with(&[(0x1000, NOP), (0x1001, NOP), (0x2000, NOP), (0xfffc, 0x00), (0xfffd, 0x20)]);
    assert_eq!(EventOutcome::Snapshot, runner.step(&mut vm, Some(BusEvent::Snapshot)));
    assert_eq!(EventOutcome::Continue, runner.step(&mut vm, Some(BusEvent::Reset)));
    assert_eq!(0x2000, vm.s.reg.pc);
    assert_eq!(Ok(Checked::Continue), runner.check(&mut vm));
    assert_eq!(
        EventOutcome::Stop(StopReason::UserBreak { total_cycles: 6 }),
        runner.step(&mut vm, Some(BusEvent::UserBreak))
    );
}

#[test]
fn runner_stops_on_undocumented_opcode() {
    let runner = Runner { stop_after: None, halt_addr: None, host_hook_addr: None, write_char_addr: None };
    let mut vm = vm_with(&[(0x1000, 0x02)]);
    let r = runner.step(&mut vm, None);
    assert_eq!(EventOutcome::CannotStep, r);
    assert_eq!(0x1000, vm.s.reg.pc);
    assert_eq!(0, vm.total_cycles);
    assert_eq!(2, StopReason::UnexpectedInterrupt { total_cycles: 9 }.exit_code());
    assert_eq!(1, StopReason::UserBreak { total_cycles: 9 }.exit_code());
    assert_eq!(0, StopReason::RequestedCyclesExecuted { total_cycles: 9 }.exit_code());
}

#[test]
fn runner_calls_host_hook_and_returns() {
    let runner = Runner { stop_after: None, halt_addr: None, host_hook_addr: Some(0x1001), write_char_addr: None };
    let mut vm = vm_with(&[
        (0x1000, NOP),
        (OSAREG, FILEV_HOST_HOOK),
        (0x01fe, 0x33),
        (0x01ff, 0x12),
    ]);
    vm.s.reg.a = 0x40;
    vm.s.reg.sp = 0xfd;
    assert_eq!(EventOutcome::Continue, runner.step(&mut vm, None));
    assert_eq!(Ok(Checked::HostHook(HostHookAction::Done)), runner.check(&mut vm));
    assert_eq!(HOOK_BRK, vm.s.reg.a);
    return_from_host_hook(&mut vm.s);
    assert_eq!(0x1234, vm.s.reg.pc);
    assert_eq!(0xff, vm.s.reg.sp);
}

#[test]
fn vectors_from_memory() {
    let mut memory = Memory::new();
    for (addr, b) in [(0xfffa, 0x01), (0xfffb, 0x02), (0xfffc, 0x03), (0xfffd, 0x04), (0xfffe, 0x05), (0xffff, 0x06)] {
        memory.store(addr, b);
    }
    let v = Vectors::from_state(&VmState::new(Reg::default(), memory));
    assert_eq!(Vectors { nmi: 0x0201, reset: 0x0403, irq: 0x0605 }, v);
}

#[test]
fn catalogue_sorted_and_aligned() {
    let entries = vec![
        (String::from("zeta"), 5),
        (String::from("alpha.txt"), 1234567),
        (String::from("mid"), 0),
    ];
    assert_eq!(
        vec![
            String::from("Directory: /x"),
            String::from("  alpha.txt     1234567"),
            String::from("  mid                 0"),
            String::from("  zeta                5"),
        ],
        catalogue_lines("/x", &entries)
    );
    assert_eq!(vec![String::from("Directory: /y")], catalogue_lines("/y", &Vec::new()));
}

#[test]
fn resolve_dir_makes_paths_absolute() {
    assert_eq!("/home/u", resolve_dir(&None, "/home/u").unwrap());
    assert_eq!("/home/u/x", resolve_dir(&Some(String::from("sub/../x")), "/home/u").unwrap());
    assert_eq!("/abs/p", resolve_dir(&Some(String::from("/abs/./p")), "/home/u").unwrap());
    assert_eq!("/home", resolve_dir(&Some(String::from("..")), "/home/u").unwrap());
}

#[test]
fn runner_writes_characters_and_returns() {
    let runner = Runner { stop_after: None, halt_addr: None, host_hook_addr: None, write_char_addr: Some(0x1001) };
    let mut vm = vm_with(&[(0x1000, NOP), (0x01fe, 0x33), (0x01ff, 0x12)]);
    vm.s.reg.a = b'H';
    vm.s.reg.sp = 0xfd;
    assert_eq!(EventOutcome::Continue, runner.step(&mut vm, None));
    assert_eq!(Ok(Checked::WriteChar(b'H')), runner.check(&mut vm));
    assert_eq!(0x1234, vm.s.reg.pc);
    assert_eq!(0xff, vm.s.reg.sp);
}

#[test]
fn stop_reason_reports() {
    let r = StopReason::RequestedCyclesExecuted { total_cycles: 1000 };
    assert_eq!("Program stopped after requested cycle count", r.description());
    assert_eq!("Stopped after 1000 cycles with exit code 0", r.cycles_summary());
    let h = StopReason::Halt { total_cycles: 77, a: 5 };
    assert_eq!("Program stopped by call to EXIT", h.description());
    assert_eq!("Completed after 77 total cycles with exit code 5", h.cycles_summary());
    let u = StopReason::UserBreak { total_cycles: 3 };
    assert_eq!("Program stopped due to user break (Ctrl+C)", u.description());
    assert_eq!("Completed after 3 total cycles with exit code 1", u.cycles_summary());
    let i = StopReason::UnexpectedInterrupt { total_cycles: 0 };
    assert_eq!("Program stopped due to unexpected interrupt (BRK)", i.description());
    assert_eq!("Completed after 0 total cycles with exit code 2", i.cycles_summary());
}

#[test]
fn debug_host_stepping_messages() {
    let host = DebugHost { halt_addr: Some(0x2000) };
    let mut s = VmState::new(Reg::default(), Memory::new());
    s.reg.p = 0x30;
    assert_eq!(MessageOutcome::Stay, host.on_stepping_message(&mut s, Some(DebugMessage::Step)));
    assert_eq!(MessageOutcome::Stay, host.on_stepping_message(&mut s, Some(DebugMessage::Break)));
    assert_eq!(
        MessageOutcome::Switch(DebugState::Running),
        host.on_stepping_message(&mut s, Some(DebugMessage::Run))
    );
    assert_eq!(
        MessageOutcome::FetchMemory { start: 0x10, end: 0x20 },
        host.on_stepping_message(&mut s, Some(DebugMessage::FetchMemory { start: 0x10, end: 0x20 }))
    );
    assert_eq!(MessageOutcome::PcChanged, host.on_stepping_message(&mut s, Some(DebugMessage::SetPc(0x1234))));
    assert_eq!(0x1234, s.reg.pc);
    assert_eq!(0x30, s.reg.p);
    assert_eq!(MessageOutcome::PcChanged, host.on_stepping_message(&mut s, Some(DebugMessage::Go(0x4000))));
    assert_eq!(0x4000, s.reg.pc);
    assert_eq!(0x20, s.reg.p);
    assert_eq!(MessageOutcome::Switch(DebugState::Stopped), host.on_stepping_message(&mut s, None));
}

#[test]
fn debug_host_halted_messages() {
    let host = DebugHost { halt_addr: None };
    let mut s = VmState::new(Reg::default(), Memory::new());
    s.reg.p = 0x10;
    for m in [DebugMessage::Step, DebugMessage::Run, DebugMessage::Break] {
        assert_eq!(MessageOutcome::Stay, host.on_halted_message(&mut s, Some(m)));
    }
    assert_eq!(MessageOutcome::PcChanged, host.on_halted_message(&mut s, Some(DebugMessage::SetPc(0x300))));
    assert_eq!(0x300, s.reg.pc);
    assert_eq!(
        MessageOutcome::Switch(DebugState::Stepping),
        host.on_halted_message(&mut s, Some(DebugMessage::Go(0x400)))
    );
    assert_eq!(0x400, s.reg.pc);
    assert_eq!(0, s.reg.p);
    assert_eq!(MessageOutcome::Switch(DebugState::Stopped), host.on_halted_message(&mut s, None));
}

#[test]
fn debug_host_after_step() {
    let host = DebugHost { halt_addr: Some(0x2000) };
    let mut reg = Reg::default();
    reg.pc = 0x2000;
    assert_eq!(AfterStep::Halt, host.after_step(&reg));
    reg.p = 0x04;
    assert_eq!(AfterStep::InvalidBrk, host.after_step(&reg));
    reg.p = 0;
    reg.pc = 0x1fff;
    assert_eq!(AfterStep::Continue, host.after_step(&reg));
    assert_eq!("Waiting", DebugState::Halted.label());
    assert_eq!("Running", DebugState::Running.label());
    assert_eq!("Stepping", DebugState::Stepping.label());
    assert_eq!("Stopped", DebugState::Stopped.label());
    assert!(!DebugState::Stepping.hides_instruction());
    assert!(DebugState::Halted.hides_instruction());
}

#[test]
fn keys_route_to_program_or_window() {
    assert_eq!((false, KeyOutcome::Ignore), route_key(false, UiKey::Char('a')));
    assert_eq!((true, KeyOutcome::SetProgramInput(true)), route_key(false, UiKey::CtrlChar('p')));
    assert_eq!((true, KeyOutcome::Send { ch: 'a', ctrl: false }), route_key(true, UiKey::Char('a')));
    assert_eq!((true, KeyOutcome::Send { ch: '_', ctrl: false }), route_key(true, UiKey::Backspace));
    assert_eq!((true, KeyOutcome::Send { ch: '_', ctrl: false }), route_key(true, UiKey::Del));
    assert_eq!((true, KeyOutcome::Send { ch: '\r', ctrl: false }), route_key(true, UiKey::Enter));
    assert_eq!((true, KeyOutcome::Send { ch: '\x1b', ctrl: false }), route_key(true, UiKey::Esc));
    assert_eq!((true, KeyOutcome::Send { ch: 'r', ctrl: true }), route_key(true, UiKey::CtrlChar('r')));
    assert_eq!((true, KeyOutcome::Send { ch: 's', ctrl: true }), route_key(true, UiKey::CtrlChar('s')));
    assert_eq!((true, KeyOutcome::Ignore), route_key(true, UiKey::CtrlChar('x')));
    assert_eq!((true, KeyOutcome::Ignore), route_key(true, UiKey::Other));
    assert_eq!((false, KeyOutcome::SetProgramInput(false)), route_key(true, UiKey::CtrlChar('p')));
}

#[test]
fn output_pane_text() {
    assert_eq!("A", output_char_text('A'));
    assert_eq!("\n", output_char_text('\n'));
    assert_eq!("[?13?]", output_char_text('\r'));
    assert_eq!("[?127?]", output_char_text('\x7f'));
    assert_eq!("é", output_char_text('é'));
}

#[test]
fn image_info_report() {
    let opts = RunOptions { path: String::from("prog.r6502"), load: Some(0x0800), start: Some(0x0900), reset: false, stop_after: Some(500) };
    let image = ImageInfo { size: 1234, machine_tag: Some(String::from("ACRN")), load: None, start: Some(0x0e00), sp: None };
    assert_eq!(
        vec![
            String::from("Image: prog.r6502"),
            String::from("Image size: 1234 ($04D2) bytes"),
            String::from("Machine tag: ACRN"),
            String::from("Load address: $0800"),
            String::from("Start address: $0E00"),
            String::from("Initial stack pointer: (unspecified)"),
            String::from("Stop after cycles: 500"),
        ],
        show_image_info(&opts, &image, 0xc000)
    );
    let opts = RunOptions { path: String::from("p"), load: None, start: None, reset: true, stop_after: None };
    let image = ImageInfo { size: 0, machine_tag: None, load: None, start: None, sp: Some(0xfd) };
    assert_eq!(
        vec![
            String::from("Image: p"),
            String::from("Image size: 0 ($0000) bytes"),
            String::from("Machine tag: (unspecified)"),
            String::from("Load address: $0000"),
            String::from("Start address: $C000 (RESET, overriding $0000)"),
            String::from("Initial stack pointer: $FD"),
        ],
        show_image_info(&opts, &image, 0xc000)
    );
}

#[test]
fn run_info_report() {
    let opts = RunOptions { path: String::from("prog"), load: None, start: None, reset: false, stop_after: None };
    let image = ImageInfo { size: 16, machine_tag: None, load: Some(0x2000), start: None, sp: None };
    let cpu = CpuState { pc: 0x2000, a: 1, x: 2, y: 3, sp: 0xff, p: 0x24, total_cycles: 9 };
    let vectors = Vectors { nmi: 0xfe00, reset: 0xfe10, irq: 0xfe20 };
    assert_eq!(
        vec![
            String::from("Image       : prog"),
            String::from("Image size  : 16 ($0010) bytes"),
            String::from("Machine tag : (unspecified)"),
            String::from("Load address: $2000"),
            String::from("Initial PC  : $2000"),
            String::from("Initial A   : $01"),
            String::from("Initial X   : $02"),
            String::from("Initial Y   : $03"),
            String::from("Initial SP  : $FF"),
            String::from("Initial P   : $24"),
            String::from("Total cycles: 9"),
            String::from("NMI         : $FE00"),
            String::from("RESET       : $FE10"),
            String::from("IRQ         : $FE20"),
        ],
        show_run_info(&opts, &image, &cpu, &vectors)
    );
}

#[test]
fn scenario_filter_keeps_order() {
    let named = ScenarioFilter::new("/d", &Some(String::from("a9 1")), &Vec::new()).unwrap();
    let scenarios = vec![
        (String::from("a9 2"), 2),
        (String::from("a9 1"), 1),
        (String::from("a9 3"), 3),
        (String::from("a9 1"), 4),
    ];
    assert_eq!(
        vec![(String::from("a9 1"), 1), (String::from("a9 1"), 4)],
        named.filter(scenarios)
    );
    let all = ScenarioFilter::new("/d", &None, &Vec::new()).unwrap();
    let scenarios = vec![(String::from("x"), 'x'), (String::from("y"), 'y')];
    assert_eq!(vec![(String::from("x"), 'x'), (String::from("y"), 'y')], all.filter(scenarios));
}

#[test]
fn snapshot_file_bytes() {
    let cpu = CpuState { pc: 0x1234, a: 1, x: 2, y: 3, sp: 0xfd, p: 0x24, total_cycles: 0x0102_0304_0506_0708 };
    let bytes = snapshot_bytes(0xabcd, &[b'A', b'C', b'R', b'N'], &cpu, &vec![9, 8]);
    assert_eq!(
        vec![
            0xcd, 0xab, 1, b'A', b'C', b'R', b'N', 0x34, 0x12, 1, 2, 3, 0xfd, 0x24, 8, 7, 6, 5, 4, 3,
            2, 1, 9, 8
        ],
        bytes
    );
    assert_eq!(22 + 2, bytes.len());
}

#[test]
fn plain_exit_codes() {
    assert_eq!(0, StopReason::RequestedCyclesExecuted { total_cycles: 5 }.plain_exit_code(7));
    assert_eq!(7, StopReason::UserBreak { total_cycles: 5 }.plain_exit_code(7));
    assert_eq!(7, StopReason::Halt { total_cycles: 5, a: 3 }.plain_exit_code(7));
}

#[test]
fn debugger_key_table() {
    assert_eq!(Some(DebugKey::Quit), debugger_key('q'));
    assert_eq!(Some(DebugKey::ToggleSymbols), debugger_key('s'));
    assert_eq!(Some(DebugKey::Step), debugger_key(' '));
    assert_eq!(Some(DebugKey::Run), debugger_key('r'));
    assert_eq!(Some(DebugKey::Break), debugger_key('b'));
    assert_eq!(None, debugger_key('x'));
    assert_eq!(Some(DebugMessage::Step), DebugKey::Step.message());
    assert_eq!(Some(DebugMessage::Run), DebugKey::Run.message());
    assert_eq!(Some(DebugMessage::Break), DebugKey::Break.message());
    assert_eq!(None, DebugKey::Quit.message());
    assert_eq!(None, DebugKey::ToggleSymbols.message());
}

#[test]
fn vdu_pending_code_then_plain_byte() {
    let mut vdu = VduDriver::default();
    assert_eq!(VduOutput::Pending, vdu.process(17));
    assert_eq!(VduOutput::Action(17, vec![1]), vdu.process(1));
    assert_eq!(VduOutput::Char(65), vdu.process(65));
}
