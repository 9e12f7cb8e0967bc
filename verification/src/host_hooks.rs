use crate::command_line::{find_char, tokens, parse_command_line};
use crate::reg::Reg;
use crate::text::{chars_of, push_char, push_hex, hex_text, parse_hex, parse_hex_spec, string_of, trim, trim_range, str_eq};
use crate::util::{make_word, word_of, wrap16};
use crate::vm_state::VmState;
use path_absolutize::Absolutize;
use vstd::prelude::*;

verus! {

/// The zero-page byte that tells which host hook is called.
pub const OSAREG: u16 = 0x00ef;
/// The value left in A when a hook succeeded.
pub const HOOK_OK: u8 = 0;
/// The value left in A when a hook failed.
pub const HOOK_BRK: u8 = 1;
/// The hook number of the command-line interpreter (OSCLI).
pub const CLIV_HOST_HOOK: u8 = 100;
/// The hook number of whole-file operations (OSFILE).
pub const FILEV_HOST_HOOK: u8 = 101;
/// Carriage return, which ends strings passed to the hooks.
pub const CR: u8 = 0x0d;

/// The 16-bit little-endian word at `base + offset`.
pub open spec fn word_in(mem: Seq<u8>, base: u16, offset: u16) -> u16 {
    let lo = wrap16(base + offset);
    let hi = wrap16(lo + 1);
    word_of(mem[hi as int], mem[lo as int])
}

/// The four consecutive addresses of a double word at `base + offset`.
pub open spec fn dword_addrs(base: u16, offset: u16) -> (u16, u16, u16, u16) {
    let a0 = wrap16(base + offset);
    let a1 = wrap16(a0 + 1);
    let a2 = wrap16(a1 + 1);
    let a3 = wrap16(a2 + 1);
    (a0, a1, a2, a3)
}

/// The 32-bit little-endian double word at `base + offset`.
pub open spec fn dword_in(mem: Seq<u8>, base: u16, offset: u16) -> u32 {
    let (a0, a1, a2, a3) = dword_addrs(base, offset);
    (mem[a0 as int] + mem[a1 as int] * 0x100 + mem[a2 as int] * 0x10000 + mem[a3 as int]
        * 0x1000000) as u32
}

/// Memory with `value` written little-endian at `base + offset`.
pub open spec fn with_dword(mem: Seq<u8>, base: u16, offset: u16, value: u32) -> Seq<u8> {
    let (a0, a1, a2, a3) = dword_addrs(base, offset);
    mem.update(a0 as int, (value % 0x100) as u8).update(a1 as int, ((value / 0x100) % 0x100) as u8).update(
        a2 as int,
        ((value / 0x10000) % 0x100) as u8,
    ).update(a3 as int, (value / 0x1000000) as u8)
}

/// The characters from `addr` up to the next carriage return, each byte
/// taken as the character with that code; `None` when no carriage return
/// lies below address 0xFFFF.
pub open spec fn cr_string(mem: Seq<u8>, addr: int) -> Option<Seq<char>>
    decreases 0xffff - addr,
{
    if addr >= 0xffff || addr < 0 {
        None
    } else if mem[addr] == CR {
        Some(Seq::empty())
    } else {
        match cr_string(mem, addr + 1) {
            Some(s) => Some(seq![mem[addr] as char] + s),
            None => None,
        }
    }
}

/// Why a host hook could not run.
#[derive(Clone, Copy, Debug, PartialEq, Eq, Structural)]
pub enum HostHookError {
    /// The hook number in OSAREG is not one of the two supported; the value
    /// carried is A, which the error message shows.
    UnsupportedHook(u8),
    /// A string has no carriage return below address 0xFFFF.
    StringTooLong,
}

/// A request to save memory to a file, with the numbers as the caller gave them.
#[derive(Debug, PartialEq, Eq)]
pub struct SaveRequest {
    pub file_name: String,
    pub load: u32,
    pub exec_addr: u32,
    pub start: u32,
    pub end: u32,
}

/// A request to load a file into memory.
#[derive(Debug, PartialEq, Eq)]
pub struct LoadRequest {
    /// The address of the OSFILE control block.
    pub xy_addr: u16,
    pub file_name: String,
    pub load: u32,
    pub exec_addr: u32,
    pub start: u32,
    pub end: u32,
}

/// What remains to be done, outside the processor, for a host hook.
#[derive(Debug, PartialEq, Eq)]
pub enum HostHookAction {
    /// Nothing: A already holds the outcome.
    Done,
    /// List a directory: the one named, or the current one.
    Catalogue(Option<String>),
    /// Change to the directory named, or show the current one.
    ChangeDir(Option<String>),
    /// Save memory to a file.
    Save(SaveRequest),
    /// `*SAVE start +length` where `start + length` does not fit in 32 bits.
    SaveLengthOverflow,
    /// Load a file into memory.
    Load(LoadRequest),
}

/// The plain content of a `HostHookAction`.
pub enum ActionView {
    Done,
    Catalogue(Option<Seq<char>>),
    ChangeDir(Option<Seq<char>>),
    Save(Seq<char>, u32, u32, u32, u32),
    SaveLengthOverflow,
    Load(u16, Seq<char>, u32, u32, u32, u32),
}

pub open spec fn opt_view(o: Option<String>) -> Option<Seq<char>> {
    match o {
        Some(s) => Some(s@),
        None => None,
    }
}

impl View for HostHookAction {
    type V = ActionView;

    open spec fn view(&self) -> ActionView {
        match self {
            HostHookAction::Done => ActionView::Done,
            HostHookAction::Catalogue(a) => ActionView::Catalogue(opt_view(*a)),
            HostHookAction::ChangeDir(a) => ActionView::ChangeDir(opt_view(*a)),
            HostHookAction::Save(r) => ActionView::Save(r.file_name@, r.load, r.exec_addr, r.start, r.end),
            HostHookAction::SaveLengthOverflow => ActionView::SaveLengthOverflow,
            HostHookAction::Load(r) => ActionView::Load(
                r.xy_addr,
                r.file_name@,
                r.load,
                r.exec_addr,
                r.start,
                r.end,
            ),
        }
    }
}

/// The outcome of reading the arguments of `*SAVE`.
pub enum SaveArgs {
    Invalid,
    Overflow,
    Valid(Seq<char>, u32, u32, u32, u32),
}

/// The hexadecimal 32-bit number in `s`, if it is one.
pub open spec fn hex32(s: Seq<char>) -> Option<nat> {
    parse_hex_spec(s, u32::MAX as nat)
}

/// How `*SAVE` reads its arguments: `name start end [exec_addr]` or
/// `name start +length [exec_addr]`, numbers in hexadecimal; the end must lie
/// after the start, and exec_addr defaults to the start.
pub open spec fn save_args_spec(arg: Option<Seq<char>>) -> SaveArgs {
    match arg {
        None => SaveArgs::Invalid,
        Some(a) => match tokens(a) {
            None => SaveArgs::Invalid,
            Some(t) => if t.len() < 2 {
                SaveArgs::Invalid
            } else {
                match hex32(t[1]) {
                    None => SaveArgs::Invalid,
                    Some(start) => if t.len() < 3 {
                        SaveArgs::Invalid
                    } else {
                        let e = t[2];
                        let end: Option<nat> = if e.len() > 0 && e[0] == '+' {
                            match hex32(e.drop_first()) {
                                None => None,
                                Some(len) => Some(start + len),
                            }
                        } else {
                            hex32(e)
                        };
                        match end {
                            None => SaveArgs::Invalid,
                            Some(end) => if end > u32::MAX {
                                SaveArgs::Overflow
                            } else if end <= start {
                                SaveArgs::Invalid
                            } else if t.len() >= 4 {
                                match hex32(t[3]) {
                                    None => SaveArgs::Invalid,
                                    Some(exec_addr) => SaveArgs::Valid(
                                        t[0],
                                        start as u32,
                                        exec_addr as u32,
                                        start as u32,
                                        end as u32,
                                    ),
                                }
                            } else {
                                SaveArgs::Valid(t[0], start as u32, start as u32, start as u32, end as u32)
                            },
                        }
                    },
                }
            },
        },
    }
}

/// The command and argument of an OSCLI line: split at the first space,
/// both parts trimmed; without a space the whole line is the command.
pub open spec fn split_command(line: Seq<char>) -> (Seq<char>, Option<Seq<char>>) {
    match find_char(line, ' ') {
        Some(i) => (trim(line.take(i as int)), Some(trim(line.skip(i + 1 as int)))),
        None => (trim(line), None),
    }
}

/// The registers with A holding the outcome of a hook.
pub open spec fn with_outcome(reg: Reg, ok: bool) -> Reg {
    Reg { a: if ok { HOOK_OK } else { HOOK_BRK }, ..reg }
}

/// The OSCLI hook: `*.` and `*CAT` list a directory, `*DIR` changes
/// directory, `*SAVE` saves memory; any other command fails at once.
pub open spec fn cliv_spec(reg: Reg, mem: Seq<u8>) -> Result<(Reg, ActionView), HostHookError> {
    match cr_string(mem, word_of(reg.y, reg.x) as int) {
        None => Err(HostHookError::StringTooLong),
        Some(line) => {
            let (command, arg) = split_command(line);
            if command == "*."@ || command == "*CAT"@ {
                Ok((reg, ActionView::Catalogue(arg)))
            } else if command == "*DIR"@ {
                Ok((reg, ActionView::ChangeDir(arg)))
            } else if command == "*SAVE"@ {
                match save_args_spec(arg) {
                    SaveArgs::Invalid => Ok((with_outcome(reg, false), ActionView::Done)),
                    SaveArgs::Overflow => Ok((reg, ActionView::SaveLengthOverflow)),
                    SaveArgs::Valid(name, load, exec_addr, start, end) => Ok(
                        (reg, ActionView::Save(name, load, exec_addr, start, end)),
                    ),
                }
            } else {
                Ok((with_outcome(reg, false), ActionView::Done))
            }
        },
    }
}

/// The OSFILE hook: A = 0 saves and A = 0xFF loads, with the file name and
/// the four addresses read from the control block at XY; any other A fails.
pub open spec fn filev_spec(reg: Reg, mem: Seq<u8>) -> Result<(Reg, ActionView), HostHookError> {
    let xy = word_of(reg.y, reg.x);
    if reg.a == 0 || reg.a == 0xff {
        match cr_string(mem, word_in(mem, xy, 0) as int) {
            None => Err(HostHookError::StringTooLong),
            Some(name) => {
                let load = dword_in(mem, xy, 2);
                let exec_addr = dword_in(mem, xy, 6);
                let start = dword_in(mem, xy, 10);
                let end = dword_in(mem, xy, 14);
                if reg.a == 0 {
                    Ok((reg, ActionView::Save(name, load, exec_addr, start, end)))
                } else {
                    Ok((reg, ActionView::Load(xy, name, load, exec_addr, start, end)))
                }
            },
        }
    } else {
        Ok((with_outcome(reg, false), ActionView::Done))
    }
}

/// A host hook: the hook number in OSAREG selects OSCLI or OSFILE.
pub open spec fn host_hook_spec(reg: Reg, mem: Seq<u8>) -> Result<(Reg, ActionView), HostHookError> {
    let hook = mem[OSAREG as int];
    if hook == CLIV_HOST_HOOK {
        cliv_spec(reg, mem)
    } else if hook == FILEV_HOST_HOOK {
        filev_spec(reg, mem)
    } else {
        Err(HostHookError::UnsupportedHook(reg.a))
    }
}

} // verus!

verus! {

/// Reads the word at `base + offset`.
pub fn read_word(s: &VmState, base_addr: u16, offset: u16) -> (r: u16)
    requires
        s.wf(),
    ensures
        r == word_in(s.memory@, base_addr, offset),
{
    let lo_addr = base_addr.wrapping_add(offset);
    let hi_addr = lo_addr.wrapping_add(1);
    make_word(s.memory.load(hi_addr), s.memory.load(lo_addr))
}

/// Reads the double word at `base + offset`.
pub fn read_dword(s: &VmState, base_addr: u16, offset: u16) -> (r: u32)
    requires
        s.wf(),
    ensures
        r == dword_in(s.memory@, base_addr, offset),
{
    let b0_addr = base_addr.wrapping_add(offset);
    let b1_addr = b0_addr.wrapping_add(1);
    let b2_addr = b1_addr.wrapping_add(1);
    let b3_addr = b2_addr.wrapping_add(1);
    let b0 = s.memory.load(b0_addr) as u32;
    let b1 = s.memory.load(b1_addr) as u32;
    let b2 = s.memory.load(b2_addr) as u32;
    let b3 = s.memory.load(b3_addr) as u32;
    b3 * 0x1000000 + b2 * 0x10000 + b1 * 0x100 + b0
}

/// Writes `value` as a double word at `base + offset`.
pub fn write_dword(s: &mut VmState, base_addr: u16, offset: u16, value: u32)
    requires
        old(s).wf(),
    ensures
        final(s).wf(),
        final(s).reg == old(s).reg,
        final(s).memory@ == with_dword(old(s).memory@, base_addr, offset, value),
{
    let b0_addr = base_addr.wrapping_add(offset);
    let b1_addr = b0_addr.wrapping_add(1);
    let b2_addr = b1_addr.wrapping_add(1);
    let b3_addr = b2_addr.wrapping_add(1);
    s.memory.store(b0_addr, (value % 0x100) as u8);
    s.memory.store(b1_addr, ((value / 0x100) % 0x100) as u8);
    s.memory.store(b2_addr, ((value / 0x10000) % 0x100) as u8);
    s.memory.store(b3_addr, (value / 0x1000000) as u8);
}

/// A double word written at some address reads back as itself there.
pub proof fn lemma_read_after_write_dword(mem: Seq<u8>, base: u16, offset: u16, value: u32)
    requires
        mem.len() == 0x10000,
    ensures
        dword_in(with_dword(mem, base, offset, value), base, offset) == value,
{
    let v = value as int;
    assert(v == v % 0x100 + ((v / 0x100) % 0x100) * 0x100 + ((v / 0x10000) % 0x100) * 0x10000 + (v
        / 0x1000000) * 0x1000000) by (nonlinear_arith)
        requires
            0 <= v < 0x1_0000_0000,
    ;
}

/// The characters from `start_addr` up to the next carriage return.
pub fn read_cr_terminated_string(s: &VmState, start_addr: u16) -> (r: Result<String, HostHookError>)
    requires
        s.wf(),
    ensures
        r matches Ok(str) ==> cr_string(s.memory@, start_addr as int) == Some(str@),
        r is Err ==> cr_string(s.memory@, start_addr as int) is None && r == Err::<
            String,
            HostHookError,
        >(HostHookError::StringTooLong),
{
    let mut out = String::new();
    let mut addr = start_addr;
    loop
        invariant
            s.wf(),
            start_addr <= addr,
            cr_string(s.memory@, start_addr as int) == (match cr_string(s.memory@, addr as int) {
                Some(rest) => Some(out@ + rest),
                None => None,
            }),
        decreases 0xffff - addr,
    {
        if addr == 0xffff {
            return Err(HostHookError::StringTooLong);
        }
        let byte = s.memory.load(addr);
        if byte == CR {
            assert(out@ + Seq::<char>::empty() =~= out@);
            return Ok(out);
        }
        let ghost before = out@;
        push_char(&mut out, byte as char);
        proof {
            match cr_string(s.memory@, addr + 1) {
                Some(rest) => {
                    assert(before + (seq![byte as char] + rest) =~= out@ + rest);
                },
                None => {},
            }
        }
        addr = addr + 1;
    }
}

fn parse_hex32(t: &String) -> (r: Option<u32>)
    ensures
        r matches Some(n) ==> hex32(t@) == Some(n as nat),
        r is None ==> hex32(t@) is None,
{
    let v = chars_of(t.as_str());
    assert(v@.subrange(0, v@.len() as int) =~= v@);
    match parse_hex(&v, 0, v.len(), 0xffff_ffff) {
        Some(n) => Some(n as u32),
        None => None,
    }
}

/// Reads the arguments of `*SAVE` (see `save_args_spec`).
fn save_args(arg: &Option<String>) -> (r: HostHookAction)
    ensures
        match save_args_spec(opt_view(*arg)) {
            SaveArgs::Invalid => r@ == ActionView::Done,
            SaveArgs::Overflow => r@ == ActionView::SaveLengthOverflow,
            SaveArgs::Valid(name, load, exec_addr, start, end) => r@ == ActionView::Save(
                name,
                load,
                exec_addr,
                start,
                end,
            ),
        },
{
    let a = match arg {
        None => return HostHookAction::Done,
        Some(a) => a,
    };
    let t = match parse_command_line(a.as_str()) {
        Ok(t) => t,
        Err(_) => return HostHookAction::Done,
    };
    let ghost tv = t@.map_values(|x: String| x@);
    assert(t@.len() == tv.len());
    if t.len() < 2 {
        return HostHookAction::Done;
    }
    assert(tv[1] == t@[1]@);
    let start = match parse_hex32(&t[1]) {
        Some(n) => n,
        None => return HostHookAction::Done,
    };
    if t.len() < 3 {
        return HostHookAction::Done;
    }
    let e = chars_of(t[2].as_str());
    assert(tv[2] == e@);
    let end: u64 = if e.len() > 0 && e[0] == '+' {
        assert(e@.subrange(1, e@.len() as int) =~= e@.drop_first());
        match parse_hex(&e, 1, e.len(), 0xffff_ffff) {
            Some(len) => start as u64 + len,
            None => return HostHookAction::Done,
        }
    } else {
        assert(e@.subrange(0, e@.len() as int) =~= e@);
        match parse_hex(&e, 0, e.len(), 0xffff_ffff) {
            Some(end) => end,
            None => return HostHookAction::Done,
        }
    };
    if end > 0xffff_ffff {
        return HostHookAction::SaveLengthOverflow;
    }
    if end <= start as u64 {
        return HostHookAction::Done;
    }
    let exec_addr = if t.len() >= 4 {
        assert(tv[3] == t@[3]@);
        match parse_hex32(&t[3]) {
            Some(n) => n,
            None => return HostHookAction::Done,
        }
    } else {
        start
    };
    assert(tv[0] == t@[0]@);
    let file_name = t[0].clone();
    HostHookAction::Save(SaveRequest { file_name, load: start, exec_addr, start, end: end as u32 })
}

/// Splits an OSCLI line into its trimmed command and argument.
fn split_command_exec(line: &String) -> (r: (String, Option<String>))
    ensures
        (r.0@, opt_view(r.1)) == split_command(line@),
{
    let v = chars_of(line.as_str());
    let n = v.len();
    let mut i: usize = 0;
    assert(v@.skip(0) =~= v@);
    while i < n && v[i] != ' '
        invariant
            n == v@.len(),
            i <= n,
            find_char(v@, ' ') == (match find_char(v@.skip(i as int), ' ') {
                Some(k) => Some((k + i) as nat),
                None => None,
            }),
        decreases n - i,
    {
        assert(v@.skip(i as int).drop_first() =~= v@.skip(i + 1));
        i += 1;
    }
    if i == n {
        assert(v@.skip(i as int) =~= Seq::<char>::empty());
        let (a, b) = trim_range(&v, 0, n, true, ' ');
        assert(v@.subrange(0, n as int) =~= v@);
        (string_of(&v, a, b), None)
    } else {
        let (a, b) = trim_range(&v, 0, i, true, ' ');
        let (c, d) = trim_range(&v, i + 1, n, true, ' ');
        assert(v@.subrange(0, i as int) =~= v@.take(i as int));
        assert(v@.subrange(i + 1, n as int) =~= v@.skip(i + 1));
        (string_of(&v, a, b), Some(string_of(&v, c, d)))
    }
}

/// Puts the outcome of a hook in A.
pub fn finish_host_hook(s: &mut VmState, ok: bool)
    ensures
        final(s).reg == with_outcome(old(s).reg, ok),
        final(s).memory == old(s).memory,
{
    s.reg.a = if ok {
        HOOK_OK
    } else {
        HOOK_BRK
    };
}

fn handle_cliv(s: &mut VmState) -> (r: Result<HostHookAction, HostHookError>)
    requires
        old(s).wf(),
    ensures
        final(s).wf(),
        final(s).memory@ == old(s).memory@,
        match cliv_spec(old(s).reg, old(s).memory@) {
            Err(e) => r == Err::<HostHookAction, HostHookError>(e) && final(s).reg == old(s).reg,
            Ok((reg, action)) => r matches Ok(a) && a@ == action && final(s).reg == reg,
        },
{
    let xy_addr = make_word(s.reg.y, s.reg.x);
    let command_line = match read_cr_terminated_string(s, xy_addr) {
        Ok(l) => l,
        Err(e) => return Err(e),
    };
    let (command, arg) = split_command_exec(&command_line);
    let c = command.as_str();
    if str_eq(c, "*.") || str_eq(c, "*CAT") {
        Ok(HostHookAction::Catalogue(arg))
    } else if str_eq(c, "*DIR") {
        Ok(HostHookAction::ChangeDir(arg))
    } else if str_eq(c, "*SAVE") {
        let action = save_args(&arg);
        if let HostHookAction::Done = action {
            finish_host_hook(s, false);
        }
        Ok(action)
    } else {
        finish_host_hook(s, false);
        Ok(HostHookAction::Done)
    }
}

fn handle_filev(s: &mut VmState) -> (r: Result<HostHookAction, HostHookError>)
    requires
        old(s).wf(),
    ensures
        final(s).wf(),
        final(s).memory@ == old(s).memory@,
        match filev_spec(old(s).reg, old(s).memory@) {
            Err(e) => r == Err::<HostHookAction, HostHookError>(e) && final(s).reg == old(s).reg,
            Ok((reg, action)) => r matches Ok(a) && a@ == action && final(s).reg == reg,
        },
{
    let a = s.reg.a;
    if a != 0 && a != 0xff {
        finish_host_hook(s, false);
        return Ok(HostHookAction::Done);
    }
    let xy_addr = make_word(s.reg.y, s.reg.x);
    let file_name_addr = read_word(s, xy_addr, 0);
    let load = read_dword(s, xy_addr, 2);
    let exec_addr = read_dword(s, xy_addr, 6);
    let start = read_dword(s, xy_addr, 10);
    let end = read_dword(s, xy_addr, 14);
    let file_name = match read_cr_terminated_string(s, file_name_addr) {
        Ok(n) => n,
        Err(e) => return Err(e),
    };
    if a == 0 {
        Ok(HostHookAction::Save(SaveRequest { file_name, load, exec_addr, start, end }))
    } else {
        Ok(HostHookAction::Load(LoadRequest { xy_addr, file_name, load, exec_addr, start, end }))
    }
}

/// Runs the part of a host hook that needs no file system: reads the hook
/// number, the command line or the OSFILE control block, and either settles
/// the outcome in A at once or returns the file operation still to be done
/// (see `host_hook_spec`). Memory is not changed.
pub fn handle_host_hook(s: &mut VmState) -> (r: Result<HostHookAction, HostHookError>)
    requires
        old(s).wf(),
    ensures
        final(s).wf(),
        final(s).memory@ == old(s).memory@,
        match host_hook_spec(old(s).reg, old(s).memory@) {
            Err(e) => r == Err::<HostHookAction, HostHookError>(e) && final(s).reg == old(s).reg,
            Ok((reg, action)) => r matches Ok(a) && a@ == action && final(s).reg == reg,
        },
{
    let hook = s.memory.load(OSAREG);
    if hook == CLIV_HOST_HOOK {
        handle_cliv(s)
    } else if hook == FILEV_HOST_HOOK {
        handle_filev(s)
    } else {
        Err(HostHookError::UnsupportedHook(s.reg.a))
    }
}

} // verus!

verus! {

/// What to write for a save: the memory range, its length, and the text of
/// the `.inf` file that goes beside the data.
#[derive(Debug, PartialEq, Eq)]
pub struct SavePlan {
    pub start: u16,
    pub end_inclusive: u16,
    pub length: u32,
    pub inf_text: String,
}

/// The `.inf` line: `"NAME" LOAD EXEC LENGTH 00`, numbers in eight
/// upper-case hexadecimal digits, ending with a newline.
pub open spec fn inf_text(name: Seq<char>, load: u32, exec_addr: u32, length: nat) -> Seq<char> {
    "\""@ + name + "\" "@ + hex_text(load as nat, 8) + " "@ + hex_text(exec_addr as nat, 8) + " "@
        + hex_text(length, 8) + " "@ + hex_text(0, 2) + "\n"@
}

/// The range a save covers: from the start to the byte before the end, both
/// taken modulo 0x10000. `None` where no save can be made: when the end does
/// not lie after the start, or when the range wraps past 0xFFFF.
pub open spec fn save_range(start: u32, end: u32) -> Option<(u16, u16)> {
    if end <= start {
        None
    } else {
        let s = (start % 0x10000) as u16;
        let e = ((end - 1) % 0x10000) as u16;
        if e < s {
            None
        } else {
            Some((s, e))
        }
    }
}

/// Plans a save (see `save_range` and `inf_text`).
pub fn save_plan(req: &SaveRequest) -> (r: Option<SavePlan>)
    ensures
        r is None <==> save_range(req.start, req.end) is None,
        r matches Some(p) ==> save_range(req.start, req.end) == Some((p.start, p.end_inclusive))
            && p.length == p.end_inclusive - p.start + 1 && p.inf_text@ == inf_text(
            req.file_name@,
            req.load,
            req.exec_addr,
            p.length as nat,
        ),
{
    if req.end <= req.start {
        return None;
    }
    let start = (req.start % 0x10000) as u16;
    let end_inclusive = ((req.end - 1) % 0x10000) as u16;
    if end_inclusive < start {
        return None;
    }
    let length = (end_inclusive - start) as u32 + 1;
    let mut inf = String::new();
    inf.append("\"");
    inf.append(req.file_name.as_str());
    inf.append("\" ");
    push_hex(&mut inf, req.load as u64, 8);
    inf.append(" ");
    push_hex(&mut inf, req.exec_addr as u64, 8);
    inf.append(" ");
    push_hex(&mut inf, length as u64, 8);
    inf.append(" ");
    push_hex(&mut inf, 0, 2);
    inf.append("\n");
    assert(inf@ =~= inf_text(req.file_name@, req.load, req.exec_addr, length as nat));
    Some(SavePlan { start, end_inclusive, length, inf_text: inf })
}

/// The bytes of memory from `start` to `end_inclusive`.
pub fn memory_range(s: &VmState, start: u16, end_inclusive: u16) -> (r: Vec<u8>)
    requires
        s.wf(),
        start <= end_inclusive,
    ensures
        r@ == s.memory@.subrange(start as int, end_inclusive + 1),
{
    let mut r: Vec<u8> = Vec::new();
    let mut addr: u32 = start as u32;
    proof {
        s.memory.lemma_wf_len();
    }
    while addr <= end_inclusive as u32
        invariant
            s.wf(),
            s.memory@.len() == 0x10000,
            start <= addr <= end_inclusive + 1,
            r@ == s.memory@.subrange(start as int, addr as int),
        decreases end_inclusive + 1 - addr,
    {
        r.push(s.memory.load(addr as u16));
        assert(r@ =~= s.memory@.subrange(start as int, addr + 1));
        addr += 1;
    }
    r
}

/// Memory with `bytes` stored from `addr` on.
pub open spec fn with_bytes(mem: Seq<u8>, addr: int, bytes: Seq<u8>) -> Seq<u8> {
    Seq::new(mem.len(), |i: int| if addr <= i < addr + bytes.len() { bytes[i - addr] } else { mem[i] })
}

/// The load address of a request, modulo 0x10000.
pub open spec fn load_address(req: LoadRequest) -> u16 {
    (req.load % 0x10000) as u16
}

/// Whether a file of `len` bytes can be loaded for `req`: loading stops
/// short of address 0xFFFF, where the address count would run out.
pub open spec fn load_fits(req: LoadRequest, len: nat) -> bool {
    load_address(req) + len < 0xffff
}

/// Whether a file of `len` bytes can be loaded for `req` (see `load_fits`).
pub fn can_load(req: &LoadRequest, len: usize) -> (r: bool)
    ensures
        r == load_fits(*req, len as nat),
{
    let addr = (req.load % 0x10000) as usize;
    len < 0xffff && addr + len < 0xffff
}

/// Stores the bytes of a loaded file from the load address on, and records
/// their number in the control block (the start-address field).
pub fn load_memory(s: &mut VmState, req: &LoadRequest, bytes: &Vec<u8>)
    requires
        old(s).wf(),
        load_fits(*req, bytes@.len()),
    ensures
        final(s).wf(),
        final(s).reg == old(s).reg,
        final(s).memory@ == with_dword(
            with_bytes(old(s).memory@, load_address(*req) as int, bytes@),
            req.xy_addr,
            10,
            bytes@.len() as u32,
        ),
{
    proof {
        old(s).memory.lemma_wf_len();
    }
    let load_addr = (req.load % 0x10000) as u16;
    let mut count: u32 = 0;
    let ghost mem0 = s.memory@;
    while (count as usize) < bytes.len()
        invariant
            s.wf(),
            s.reg == old(s).reg,
            mem0 == old(s).memory@,
            mem0.len() == 0x10000,
            load_addr == load_address(*req),
            load_addr + bytes@.len() < 0xffff,
            count <= bytes@.len(),
            s.memory@ == with_bytes(mem0, load_addr as int, bytes@.take(count as int)),
        decreases bytes@.len() - count,
    {
        let addr = load_addr + count as u16;
        s.memory.store(addr, bytes[count as usize]);
        assert(s.memory@ =~= with_bytes(mem0, load_addr as int, bytes@.take(count + 1)));
        count += 1;
    }
    assert(bytes@.take(count as int) =~= bytes@);
    write_dword(s, req.xy_addr, 10, count);
}

#[verifier::external_type_specification]
#[verifier::external_body]
pub struct ExIoError(std::io::Error);

/// Whether a path is absolute on Unix: it starts with `/`.
pub open spec fn is_absolute_path(p: Seq<char>) -> bool {
    p.len() > 0 && p[0] == '/'
}

/// The text of `path` made absolute against the absolute working directory
/// `cwd` by path_absolutize's Unix implementation (its `.` and `..`
/// components resolved lexically, never above the root). The library is
/// built for Unix targets; the crate's Windows implementation, which handles
/// drive prefixes and its own separator, is not what this names.
pub uninterp spec fn unix_absolutized(path: Seq<char>, cwd: Seq<char>) -> Seq<char>;

/// Calls path_absolutize's `Absolutize::absolutize_from` on `path`, with
/// `cwd` as the working directory. On Unix the crate works on the text of the
/// two paths and does not look at the file system, and its code for this
/// function has no error return: the result is `Ok`, named
/// `unix_absolutized` of the two texts. The working directory must be
/// absolute: with a relative or empty one, a leading `.` or `..` leaves the
/// crate with no component to build a path from, and it panics.
#[verifier::external_body]
fn absolutize_from(path: &str, cwd: &str) -> (r: Result<String, std::io::Error>)
    requires
        is_absolute_path(cwd@),
    ensures
        r is Ok,
        r matches Ok(s) ==> s@ == unix_absolutized(path@, cwd@),
{
    match std::path::Path::new(path).absolutize_from(cwd) {
        Ok(p) => Ok(p.to_string_lossy().into_owned()),
        Err(e) => Err(e),
    }
}

/// The directory that `*CAT` lists and `*DIR` changes to: the argument made
/// absolute against the working directory `cwd`, or `cwd` itself when there
/// is no argument. With an argument, the working directory must be absolute
/// (see `absolutize_from`); the result is then always `Ok`.
pub fn resolve_dir(arg: &Option<String>, cwd: &str) -> (r: Result<String, std::io::Error>)
    requires
        arg is Some ==> is_absolute_path(cwd@),
    ensures
        arg is None ==> (r matches Ok(d) && d@ == cwd@),
        arg matches Some(a) ==> (r matches Ok(d) && d@ == unix_absolutized(a@, cwd@)),
{
    match arg {
        None => Ok(cwd.to_owned()),
        Some(a) => absolutize_from(a.as_str(), cwd),
    }
}

} // verus!
