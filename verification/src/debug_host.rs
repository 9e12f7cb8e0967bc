use crate::reg::{flag, set_flag, with_flag, Reg, FLAG_B, FLAG_I};
use crate::text::{dec_text, push_char, push_dec};
use crate::vm_state::VmState;
use vstd::prelude::*;

verus! {

/// The state of the debugger.
#[derive(Clone, Copy, Debug, PartialEq, Eq, Structural)]
pub enum DebugState {
    /// The program runs freely.
    Running,
    /// The program runs one instruction per request.
    Stepping,
    /// The program has stopped and waits to be told where to go on.
    Halted,
    /// The debugger has gone away.
    Stopped,
}

/// The word the debugger shows for a state.
pub open spec fn state_label_spec(state: DebugState) -> Seq<char> {
    match state {
        DebugState::Running => "Running"@,
        DebugState::Stepping => "Stepping"@,
        DebugState::Halted => "Waiting"@,
        DebugState::Stopped => "Stopped"@,
    }
}

impl DebugState {
    /// The word the debugger shows for this state (see `state_label_spec`).
    pub fn label(&self) -> (r: &'static str)
        ensures
            r@ == state_label_spec(*self),
    {
        match self {
            DebugState::Running => "Running",
            DebugState::Stepping => "Stepping",
            DebugState::Halted => "Waiting",
            DebugState::Stopped => "Stopped",
        }
    }

    /// Whether the current instruction is no longer shown in this state
    /// (every state but stepping).
    pub fn hides_instruction(&self) -> (r: bool)
        ensures
            r == (*self != DebugState::Stepping),
    {
        !matches!(self, DebugState::Stepping)
    }
}

/// A request from the debugger's user.
#[derive(Clone, Copy, Debug, PartialEq, Eq, Structural)]
pub enum DebugMessage {
    /// Run one instruction.
    Step,
    /// Stop running.
    Break,
    /// Run freely.
    Run,
    /// Show the memory from `start` to `end`.
    FetchMemory { start: u16, end: u16 },
    /// Move the program counter.
    SetPc(u16),
    /// Go on from an address, clearing B.
    Go(u16),
}

/// What follows a request.
#[derive(Clone, Copy, Debug, PartialEq, Eq, Structural)]
pub enum MessageOutcome {
    /// Nothing more.
    Stay,
    /// Send the contents of the memory from `start` to `end`.
    FetchMemory { start: u16, end: u16 },
    /// The program counter moved: show the instruction there.
    PcChanged,
    /// Change to another state.
    Switch(DebugState),
}

/// What follows an instruction run under the debugger.
#[derive(Clone, Copy, Debug, PartialEq, Eq, Structural)]
pub enum AfterStep {
    /// Go on.
    Continue,
    /// The instruction was a software interrupt (I is set): tell the user and
    /// halt.
    InvalidBrk,
    /// The program reached the halt address: halt.
    Halt,
}

/// The registers after a request that moves the program counter: `SetPc`
/// moves it; `Go` also clears B.
pub open spec fn moved(reg: Reg, msg: DebugMessage) -> Reg {
    match msg {
        DebugMessage::SetPc(addr) => Reg { pc: addr, ..reg },
        DebugMessage::Go(addr) => Reg { pc: addr, p: with_flag(reg.p, FLAG_B, false), ..reg },
        _ => reg,
    }
}

/// A request while stepping; `None` when the user has gone. Step and break
/// ask for nothing more than the next instruction, run switches to running,
/// the others are carried out.
pub open spec fn stepping_outcome(msg: Option<DebugMessage>) -> MessageOutcome {
    match msg {
        None => MessageOutcome::Switch(DebugState::Stopped),
        Some(DebugMessage::Step) | Some(DebugMessage::Break) => MessageOutcome::Stay,
        Some(DebugMessage::Run) => MessageOutcome::Switch(DebugState::Running),
        Some(DebugMessage::FetchMemory { start, end }) => MessageOutcome::FetchMemory { start, end },
        Some(DebugMessage::SetPc(_)) | Some(DebugMessage::Go(_)) => MessageOutcome::PcChanged,
    }
}

/// A request while halted; `None` when the user has gone. Only `Go`
/// leaves the halted state, for stepping.
pub open spec fn halted_outcome(msg: Option<DebugMessage>) -> MessageOutcome {
    match msg {
        None => MessageOutcome::Switch(DebugState::Stopped),
        Some(DebugMessage::Step) | Some(DebugMessage::Run) | Some(DebugMessage::Break) => MessageOutcome::Stay,
        Some(DebugMessage::FetchMemory { start, end }) => MessageOutcome::FetchMemory { start, end },
        Some(DebugMessage::SetPc(_)) => MessageOutcome::PcChanged,
        Some(DebugMessage::Go(_)) => MessageOutcome::Switch(DebugState::Stepping),
    }
}

/// The decisions of the debugger's host, with the machine's halt address.
#[derive(Clone, Copy, Debug, PartialEq, Eq, Structural)]
pub struct DebugHost {
    pub halt_addr: Option<u16>,
}

fn move_pc(s: &mut VmState, msg: DebugMessage)
    requires
        old(s).wf(),
    ensures
        final(s).wf(),
        final(s).memory == old(s).memory,
        final(s).reg == moved(old(s).reg, msg),
{
    match msg {
        DebugMessage::SetPc(addr) => {
            s.reg.pc = addr;
        },
        DebugMessage::Go(addr) => {
            s.reg.p = set_flag(s.reg.p, FLAG_B, false);
            s.reg.pc = addr;
        },
        _ => {},
    }
}

impl DebugHost {
    /// Takes a request while stepping (see `stepping_outcome` and `moved`).
    pub fn on_stepping_message(&self, s: &mut VmState, msg: Option<DebugMessage>) -> (r: MessageOutcome)
        requires
            old(s).wf(),
        ensures
            final(s).wf(),
            final(s).memory == old(s).memory,
            r == stepping_outcome(msg),
            final(s).reg == match msg {
                Some(m) => moved(old(s).reg, m),
                None => old(s).reg,
            },
    {
        match msg {
            None => MessageOutcome::Switch(DebugState::Stopped),
            Some(m) => match m {
                DebugMessage::Step | DebugMessage::Break => MessageOutcome::Stay,
                DebugMessage::Run => MessageOutcome::Switch(DebugState::Running),
                DebugMessage::FetchMemory { start, end } => MessageOutcome::FetchMemory { start, end },
                DebugMessage::SetPc(_) | DebugMessage::Go(_) => {
                    move_pc(s, m);
                    MessageOutcome::PcChanged
                },
            },
        }
    }

    /// Takes a request while halted (see `halted_outcome` and `moved`).
    pub fn on_halted_message(&self, s: &mut VmState, msg: Option<DebugMessage>) -> (r: MessageOutcome)
        requires
            old(s).wf(),
        ensures
            final(s).wf(),
            final(s).memory == old(s).memory,
            r == halted_outcome(msg),
            final(s).reg == match msg {
                Some(m) => moved(old(s).reg, m),
                None => old(s).reg,
            },
    {
        match msg {
            None => MessageOutcome::Switch(DebugState::Stopped),
            Some(m) => match m {
                DebugMessage::Step | DebugMessage::Run | DebugMessage::Break => MessageOutcome::Stay,
                DebugMessage::FetchMemory { start, end } => MessageOutcome::FetchMemory { start, end },
                DebugMessage::SetPc(_) => {
                    move_pc(s, m);
                    MessageOutcome::PcChanged
                },
                DebugMessage::Go(_) => {
                    move_pc(s, m);
                    MessageOutcome::Switch(DebugState::Stepping)
                },
            },
        }
    }

    /// The check after an instruction, running or stepping: a set I flag
    /// means a software interrupt, then the halt address halts.
    pub fn after_step(&self, reg: &Reg) -> (r: AfterStep)
        ensures
            r == (if flag(reg.p, FLAG_I) {
                AfterStep::InvalidBrk
            } else if self.halt_addr == Some(reg.pc) {
                AfterStep::Halt
            } else {
                AfterStep::Continue
            }),
    {
        if reg.p & FLAG_I != 0 {
            AfterStep::InvalidBrk
        } else {
            match self.halt_addr {
                Some(addr) => if reg.pc == addr {
                    AfterStep::Halt
                } else {
                    AfterStep::Continue
                },
                None => AfterStep::Continue,
            }
        }
    }
}

/// What a key does in the debugger's window when keys go to the window.
#[derive(Clone, Copy, Debug, PartialEq, Eq, Structural)]
pub enum DebugKey {
    /// `q`: quit.
    Quit,
    /// `s`: show the symbols in the other order.
    ToggleSymbols,
    /// Space: run one instruction.
    Step,
    /// `r`: run freely.
    Run,
    /// `b`: stop running.
    Break,
}

/// The debugger's key table: `q`, `s`, space, `r` and `b`.
pub open spec fn debugger_key_spec(c: char) -> Option<DebugKey> {
    if c == 'q' {
        Some(DebugKey::Quit)
    } else if c == 's' {
        Some(DebugKey::ToggleSymbols)
    } else if c == ' ' {
        Some(DebugKey::Step)
    } else if c == 'r' {
        Some(DebugKey::Run)
    } else if c == 'b' {
        Some(DebugKey::Break)
    } else {
        None
    }
}

/// What a key does in the debugger's window (see `debugger_key_spec`).
pub fn debugger_key(c: char) -> (r: Option<DebugKey>)
    ensures
        r == debugger_key_spec(c),
{
    if c == 'q' {
        Some(DebugKey::Quit)
    } else if c == 's' {
        Some(DebugKey::ToggleSymbols)
    } else if c == ' ' {
        Some(DebugKey::Step)
    } else if c == 'r' {
        Some(DebugKey::Run)
    } else if c == 'b' {
        Some(DebugKey::Break)
    } else {
        None
    }
}

impl DebugKey {
    /// The request a key sends to the debugger's host: step, run and break
    /// send theirs; quitting and toggling the symbols stay in the window.
    pub fn message(&self) -> (r: Option<DebugMessage>)
        ensures
            r == match *self {
                DebugKey::Step => Some(DebugMessage::Step),
                DebugKey::Run => Some(DebugMessage::Run),
                DebugKey::Break => Some(DebugMessage::Break),
                _ => None::<DebugMessage>,
            },
    {
        match self {
            DebugKey::Step => Some(DebugMessage::Step),
            DebugKey::Run => Some(DebugMessage::Run),
            DebugKey::Break => Some(DebugMessage::Break),
            _ => None,
        }
    }
}

/// A key as the debugger's window sees it.
#[derive(Clone, Copy, Debug, PartialEq, Eq, Structural)]
pub enum UiKey {
    /// A character typed with Control held.
    CtrlChar(char),
    /// A character.
    Char(char),
    Backspace,
    Del,
    Enter,
    Esc,
    /// Any other key or event.
    Other,
}

/// What the debugger's window does with a key.
#[derive(Clone, Copy, Debug, PartialEq, Eq, Structural)]
pub enum KeyOutcome {
    /// Leave the key to the window.
    Ignore,
    /// Keys now go to the program (`true`) or to the window (`false`):
    /// change the colours of the program's output to show it.
    SetProgramInput(bool),
    /// Send the character to the program, with Control held when `ctrl`.
    Send { ch: char, ctrl: bool },
}

/// How a key is routed, given whether keys go to the program. Control-P
/// switches between the program and the window; while keys go to the
/// program, Control-R and Control-S, backspace and delete (as `_`), enter (as
/// carriage return), escape and characters go to it, and anything else is
/// left to the window.
pub open spec fn route_key_spec(program_has_input: bool, key: UiKey) -> (bool, KeyOutcome) {
    if key == UiKey::CtrlChar('p') {
        (!program_has_input, KeyOutcome::SetProgramInput(!program_has_input))
    } else if !program_has_input {
        (false, KeyOutcome::Ignore)
    } else {
        (
            true,
            match key {
                UiKey::CtrlChar(c) => if c == 'r' || c == 's' {
                    KeyOutcome::Send { ch: c, ctrl: true }
                } else {
                    KeyOutcome::Ignore
                },
                UiKey::Char(c) => KeyOutcome::Send { ch: c, ctrl: false },
                UiKey::Backspace | UiKey::Del => KeyOutcome::Send { ch: '_', ctrl: false },
                UiKey::Enter => KeyOutcome::Send { ch: '\r', ctrl: false },
                UiKey::Esc => KeyOutcome::Send { ch: '\x1b', ctrl: false },
                UiKey::Other => KeyOutcome::Ignore,
            },
        )
    }
}

/// Routes a key (see `route_key_spec`): whether keys go to the program
/// afterwards, and what to do with this one.
pub fn route_key(program_has_input: bool, key: UiKey) -> (r: (bool, KeyOutcome))
    ensures
        r == route_key_spec(program_has_input, key),
{
    if key == UiKey::CtrlChar('p') {
        return (!program_has_input, KeyOutcome::SetProgramInput(!program_has_input));
    }
    if !program_has_input {
        return (false, KeyOutcome::Ignore);
    }
    let outcome = match key {
        UiKey::CtrlChar(c) => if c == 'r' || c == 's' {
            KeyOutcome::Send { ch: c, ctrl: true }
        } else {
            KeyOutcome::Ignore
        },
        UiKey::Char(c) => KeyOutcome::Send { ch: c, ctrl: false },
        UiKey::Backspace | UiKey::Del => KeyOutcome::Send { ch: '_', ctrl: false },
        UiKey::Enter => KeyOutcome::Send { ch: '\r', ctrl: false },
        UiKey::Esc => KeyOutcome::Send { ch: '\x1b', ctrl: false },
        UiKey::Other => KeyOutcome::Ignore,
    };
    (true, outcome)
}

/// Control-P switches where keys go, and a second Control-P switches them
/// back; while keys go to the window, every other key is left to it.
pub proof fn lemma_ctrl_p_toggles(program_has_input: bool, key: UiKey)
    ensures
        route_key_spec(program_has_input, UiKey::CtrlChar('p')).0 == !program_has_input,
        route_key_spec(route_key_spec(program_has_input, UiKey::CtrlChar('p')).0, UiKey::CtrlChar('p')).0
            == program_has_input,
        key != UiKey::CtrlChar('p') ==> route_key_spec(false, key) == (false, KeyOutcome::Ignore),
{
}

/// How a character that the program writes shows in the debugger's output
/// pane: a newline or a character that is not an ASCII control character as
/// itself, a control character as `[?N?]` with its code in decimal.
pub open spec fn output_text(ch: char) -> Seq<char> {
    if ch == '\n' || !((ch as u32) < 0x20 || ch as u32 == 0x7f) {
        seq![ch]
    } else {
        "[?"@ + dec_text(ch as nat) + "?]"@
    }
}

/// The text that shows a character the program writes (see `output_text`).
pub fn output_char_text(ch: char) -> (r: String)
    ensures
        r@ == output_text(ch),
{
    let mut s = String::new();
    let code = ch as u32;
    if ch == '\n' || !(code < 0x20 || code == 0x7f) {
        push_char(&mut s, ch);
        assert(s@ =~= seq![ch]);
    } else {
        s.append("[?");
        push_dec(&mut s, code as u64);
        s.append("?]");
        assert(s@ =~= output_text(ch));
    }
    s
}

} // verus!
