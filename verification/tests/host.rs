use r6502::{
    can_load, crosses_page_boundary, finish_host_hook, handle_host_hook, load_memory,
    memory_range, parse_command_line, read_cr_terminated_string, read_dword, save_plan,
    CommandLineError, HostHookAction, HostHookError, LoadRequest, Memory, Reg, SavePlan,
    SaveRequest, VmState, CLIV_HOST_HOOK, CR, FILEV_HOST_HOOK, HOOK_BRK, HOOK_OK, OSAREG,
};

fn empty_state() -> VmState {
    VmState::new(Reg::default(), Memory::new())
}

fn put_string(s: &mut VmState, addr: u16, text: &str) {
    let mut a = addr;
    for b in text.bytes() {
        s.memory.store(a, b);
        a += 1;
    }
    s.memory.store(a, CR);
}

fn cliv(line: &str) -> (VmState, Result<HostHookAction, HostHookError>) {
    let mut s = empty_state();
    s.memory.store(OSAREG, CLIV_HOST_HOOK);
    put_string(&mut s, 0x0500, line);
    s.reg.x = 0x00;
    s.reg.y = 0x05;
    s.reg.a = 0x77;
    let r = handle_host_hook(&mut s);
    (s, r)
}

fn save(file_name: &str, load: u32, exec_addr: u32, start: u32, end: u32) -> HostHookAction {
    HostHookAction::Save(SaveRequest { file_name: String::from(file_name), load, exec_addr, start, end })
}

#[test]
fn parse_command_line_basics() {
    for (expected, input) in [
        (vec!["FILE", "aaa", "bbb", "ccc"], "FILE aaa bbb ccc"),
        (vec!["FILE NAME", "aaa", "bbb", "ccc"], "\"FILE NAME\" aaa bbb ccc"),
        (vec!["FILE NAME", "aaa", "bbb", "ccc"], "  \"FILE NAME\"   aaa   bbb   ccc  "),
    ] {
        assert_eq!(expected, parse_command_line(input).unwrap());
    }
}

#[test]
fn parse_command_line_edge_cases() {
    assert_eq!(Vec::<String>::new(), parse_command_line("   ").unwrap());
    assert_eq!(vec!["a", "b"], parse_command_line("\"a\"b").unwrap());
    assert_eq!(vec![""], parse_command_line("\"\"").unwrap());
    let e = parse_command_line("x \"open").unwrap_err();
    assert_eq!(CommandLineError::UnterminatedQuote { input: String::from("x \"open") }, e);
    assert_eq!("syntax error in x \"open", e.message());
    let e = parse_command_line("FOO \"BAR").unwrap_err();
    assert_eq!("syntax error in FOO \"BAR", e.message());
}

#[test]
fn crosses_page_boundary_basics() {
    for (expected, input) in [(false, 0x0000), (true, 0x00ff), (false, 0x0100), (true, 0x01ff)] {
        assert_eq!(expected, crosses_page_boundary(input));
    }
}

#[test]
fn cr_terminated_strings() {
    let mut s = empty_state();
    put_string(&mut s, 0x0300, "HELLO");
    assert_eq!(Ok(String::from("HELLO")), read_cr_terminated_string(&s, 0x0300));
    assert_eq!(Ok(String::new()), read_cr_terminated_string(&s, 0x0305));
    let s = empty_state();
    assert_eq!(Err(HostHookError::StringTooLong), read_cr_terminated_string(&s, 0x0300));
}

#[test]
fn oscli_catalogue_and_directory() {
    let (s, r) = cliv("*CAT docs");
    assert_eq!(Ok(HostHookAction::Catalogue(Some(String::from("docs")))), r);
    assert_eq!(0x77, s.reg.a);
    let (_, r) = cliv("*.");
    assert_eq!(Ok(HostHookAction::Catalogue(None)), r);
    let (_, r) = cliv("*DIR  ..  ");
    assert_eq!(Ok(HostHookAction::ChangeDir(Some(String::from("..")))), r);
    let (_, r) = cliv("*DIR");
    assert_eq!(Ok(HostHookAction::ChangeDir(None)), r);
}

#[test]
fn oscli_unknown_command_fails_at_once() {
    let (s, r) = cliv("*HELP");
    assert_eq!(Ok(HostHookAction::Done), r);
    assert_eq!(HOOK_BRK, s.reg.a);
}

#[test]
fn oscli_save() {
    let (_, r) = cliv("*SAVE FILE 1000 +20");
    assert_eq!(Ok(save("FILE", 0x1000, 0x1000, 0x1000, 0x1020)), r);
    let (_, r) = cliv("*SAVE \"MY FILE\" 1000 2000 3000");
    assert_eq!(Ok(save("MY FILE", 0x1000, 0x3000, 0x1000, 0x2000)), r);
    let (s, r) = cliv("*SAVE FILE 2000 1000");
    assert_eq!(Ok(HostHookAction::Done), r);
    assert_eq!(HOOK_BRK, s.reg.a);
    let (s, r) = cliv("*SAVE FILE 1000");
    assert_eq!(Ok(HostHookAction::Done), r);
    assert_eq!(HOOK_BRK, s.reg.a);
    let (s, r) = cliv("*SAVE FILE XYZ 2000");
    assert_eq!(Ok(HostHookAction::Done), r);
    assert_eq!(HOOK_BRK, s.reg.a);
    let (_, r) = cliv("*SAVE FILE 1 +FFFFFFFF");
    assert_eq!(Ok(HostHookAction::SaveLengthOverflow), r);
}

fn filev(a: u8) -> (VmState, Result<HostHookAction, HostHookError>) {
    let mut s = empty_state();
    s.memory.store(OSAREG, FILEV_HOST_HOOK);
    put_string(&mut s, 0x0700, "DATA");
    let block = 0x0600u16;
    let bytes: [u8; 18] = [
        0x00, 0x07, 0x00, 0x20, 0x00, 0x00, 0x10, 0x20, 0x00, 0x00, 0x00, 0x30, 0x00, 0x00, 0x00,
        0x31, 0x00, 0x00,
    ];
    for (i, b) in bytes.iter().enumerate() {
        s.memory.store(block + i as u16, *b);
    }
    s.reg.x = 0x00;
    s.reg.y = 0x06;
    s.reg.a = a;
    let r = handle_host_hook(&mut s);
    (s, r)
}

#[test]
fn osfile_save_and_load() {
    let (_, r) = filev(0);
    assert_eq!(Ok(save("DATA", 0x2000, 0x2010, 0x3000, 0x3100)), r);
    let (s, r) = filev(0xff);
    assert_eq!(
        Ok(HostHookAction::Load(LoadRequest {
            xy_addr: 0x0600,
            file_name: String::from("DATA"),
            load: 0x2000,
            exec_addr: 0x2010,
            start: 0x3000,
            end: 0x3100,
        })),
        r
    );
    assert_eq!(0xff, s.reg.a);
    let (s, r) = filev(5);
    assert_eq!(Ok(HostHookAction::Done), r);
    assert_eq!(HOOK_BRK, s.reg.a);
}

#[test]
fn unsupported_hook() {
    let mut s = empty_state();
    s.memory.store(OSAREG, 7);
    s.reg.a = 0x42;
    assert_eq!(Err(HostHookError::UnsupportedHook(0x42)), handle_host_hook(&mut s));
    let mut s = empty_state();
    s.memory.store(OSAREG, CLIV_HOST_HOOK);
    assert_eq!(Err(HostHookError::StringTooLong), handle_host_hook(&mut s));
}

#[test]
fn finishing_a_hook_sets_a() {
    let mut s = empty_state();
    s.reg.a = 9;
    finish_host_hook(&mut s, true);
    assert_eq!(HOOK_OK, s.reg.a);
    finish_host_hook(&mut s, false);
    assert_eq!(HOOK_BRK, s.reg.a);
}

#[test]
fn save_plans() {
    let req = SaveRequest { file_name: String::from("FILE"), load: 0x1000, exec_addr: 0x1000, start: 0x1000, end: 0x1020 };
    assert_eq!(
        Some(SavePlan {
            start: 0x1000,
            end_inclusive: 0x101f,
            length: 0x20,
            inf_text: String::from("\"FILE\" 00001000 00001000 00000020 00\n"),
        }),
        save_plan(&req)
    );
    let req = SaveRequest { file_name: String::from("X"), load: 0xffff_2000, exec_addr: 0x8023, start: 0x0001_2000, end: 0x0001_2001 };
    let plan = save_plan(&req).unwrap();
    assert_eq!((0x2000, 0x2000, 1), (plan.start, plan.end_inclusive, plan.length));
    assert_eq!("\"X\" FFFF2000 00008023 00000001 00\n", plan.inf_text);
    let req = SaveRequest { file_name: String::from("X"), load: 0, exec_addr: 0, start: 0x2000, end: 0x2000 };
    assert_eq!(None, save_plan(&req));
    let req = SaveRequest { file_name: String::from("X"), load: 0, exec_addr: 0, start: 0xfff0, end: 0x1_0010 };
    assert_eq!(None, save_plan(&req));
}

#[test]
fn memory_ranges() {
    let mut s = empty_state();
    s.memory.store(0x10, 1);
    s.memory.store(0x11, 2);
    s.memory.store(0x12, 3);
    assert_eq!(vec![1, 2, 3], memory_range(&s, 0x10, 0x12));
    assert_eq!(vec![0], memory_range(&s, 0xffff, 0xffff));
}

#[test]
fn loading_files() {
    let req = LoadRequest { xy_addr: 0x0600, file_name: String::from("F"), load: 0x0001_2000, exec_addr: 0, start: 0, end: 0 };
    assert!(can_load(&req, 3));
    let mut s = empty_state();
    load_memory(&mut s, &req, &vec![1, 2, 3]);
    assert_eq!(vec![1, 2, 3], memory_range(&s, 0x2000, 0x2002));
    assert_eq!(3, read_dword(&s, 0x0600, 10));
    let high = LoadRequest { xy_addr: 0x0600, file_name: String::from("F"), load: 0xff00, exec_addr: 0, start: 0, end: 0 };
    assert!(can_load(&high, 0xfe));
    assert!(!can_load(&high, 0xff));
}

#[test]
fn commands_without_quotes_split_at_whitespace() {
    let line = " SAVE\tfile  1000 \u{a0}2000 ";
    let tokens = parse_command_line(line).unwrap();
    let words: Vec<String> = line.split_whitespace().map(String::from).collect();
    assert_eq!(words, tokens);
    assert_eq!(vec!["SAVE", "file", "1000", "2000"], tokens);
}
