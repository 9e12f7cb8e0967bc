use crate::execute::{can_step, step_spec, word_at, Machine, IRQ, NMI, RESET};
use crate::host_hooks::{handle_host_hook, host_hook_spec, HostHookAction, HostHookError};
use crate::reg::Reg;
use crate::text::{dec_text, push_dec};
use crate::vm::{step_calls, Monitor, TotalCycles, Vm, MAX_INSTRUCTION_CYCLES};
use crate::vm_state::{top_word, VmState};
use crate::util::{wrap16, wrap8};
use vstd::prelude::*;

verus! {

/// What the emulated machine tells the runner between instructions.
#[derive(Clone, Copy, Debug, PartialEq, Eq, Structural)]
pub enum BusEvent {
    /// The user pressed the break key combination.
    UserBreak,
    /// The user asked for a reset.
    Reset,
    /// The user asked for a snapshot of the machine.
    Snapshot,
}

/// What the runner tells the terminal's input loop.
#[derive(Clone, Copy, Debug, PartialEq, Eq, Structural)]
pub enum TerminalEvent {
    /// Stop reading input.
    Shutdown,
}

/// Why a run ended, with the number of cycles run.
#[derive(Clone, Copy, Debug, PartialEq, Eq, Structural)]
pub enum StopReason {
    /// The program ran into a software interrupt that nothing handles.
    UnexpectedInterrupt { total_cycles: TotalCycles },
    /// The user pressed the break key combination.
    UserBreak { total_cycles: TotalCycles },
    /// The requested number of cycles has run.
    RequestedCyclesExecuted { total_cycles: TotalCycles },
    /// The program reached the machine's halt address; A holds its exit code.
    Halt { total_cycles: TotalCycles, a: u8 },
}

/// The process exit code for a stop: 2 for an unexpected interrupt, 1 for a
/// user break, 0 after the requested cycles, and A at a halt.
pub open spec fn exit_code_spec(reason: StopReason) -> int {
    match reason {
        StopReason::UnexpectedInterrupt { .. } => 2,
        StopReason::UserBreak { .. } => 1,
        StopReason::RequestedCyclesExecuted { .. } => 0,
        StopReason::Halt { a, .. } => a as int,
    }
}

/// What the log says of a stop.
pub open spec fn stop_description(reason: StopReason) -> Seq<char> {
    match reason {
        StopReason::UnexpectedInterrupt { .. } => "Program stopped due to unexpected interrupt (BRK)"@,
        StopReason::UserBreak { .. } => "Program stopped due to user break (Ctrl+C)"@,
        StopReason::RequestedCyclesExecuted { .. } => "Program stopped after requested cycle count"@,
        StopReason::Halt { .. } => "Program stopped by call to EXIT"@,
    }
}

/// The number of cycles run before a stop.
pub open spec fn stop_cycles(reason: StopReason) -> u64 {
    match reason {
        StopReason::UnexpectedInterrupt { total_cycles } => total_cycles,
        StopReason::UserBreak { total_cycles } => total_cycles,
        StopReason::RequestedCyclesExecuted { total_cycles } => total_cycles,
        StopReason::Halt { total_cycles, .. } => total_cycles,
    }
}

/// The line that reports the cycles of a run and its exit code: `Stopped
/// after N cycles` when the cycle limit stopped it, `Completed after N total
/// cycles` otherwise.
pub open spec fn cycles_summary_spec(reason: StopReason) -> Seq<char> {
    if reason is RequestedCyclesExecuted {
        "Stopped after "@ + dec_text(stop_cycles(reason) as nat) + " cycles with exit code "@
            + dec_text(exit_code_spec(reason) as nat)
    } else {
        "Completed after "@ + dec_text(stop_cycles(reason) as nat) + " total cycles with exit code "@
            + dec_text(exit_code_spec(reason) as nat)
    }
}

impl StopReason {
    /// The process exit code for this stop (see `exit_code_spec`).
    pub fn exit_code(&self) -> (r: i32)
        ensures
            r == exit_code_spec(*self),
    {
        match self {
            StopReason::UnexpectedInterrupt { .. } => 2,
            StopReason::UserBreak { .. } => 1,
            StopReason::RequestedCyclesExecuted { .. } => 0,
            StopReason::Halt { a, .. } => *a as i32,
        }
    }

    /// The exit code under the plain terminal runner, which reports the
    /// accumulator `a` at the end of a run, or 0 when the run stopped after
    /// the requested number of cycles.
    pub fn plain_exit_code(&self, a: u8) -> (r: i32)
        ensures
            r == (if *self is RequestedCyclesExecuted {
                0
            } else {
                a as int
            }),
    {
        match self {
            StopReason::RequestedCyclesExecuted { .. } => 0,
            _ => a as i32,
        }
    }

    /// What the log says of this stop.
    pub fn description(&self) -> (r: &'static str)
        ensures
            r@ == stop_description(*self),
    {
        match self {
            StopReason::UnexpectedInterrupt { .. } => "Program stopped due to unexpected interrupt (BRK)",
            StopReason::UserBreak { .. } => "Program stopped due to user break (Ctrl+C)",
            StopReason::RequestedCyclesExecuted { .. } => "Program stopped after requested cycle count",
            StopReason::Halt { .. } => "Program stopped by call to EXIT",
        }
    }

    /// The line that reports the cycles run and the exit code (see
    /// `cycles_summary_spec`).
    pub fn cycles_summary(&self) -> (r: String)
        ensures
            r@ == cycles_summary_spec(*self),
    {
        let mut s = String::new();
        let requested = matches!(self, StopReason::RequestedCyclesExecuted { .. });
        if requested {
            s.append("Stopped after ");
        } else {
            s.append("Completed after ");
        }
        push_dec(&mut s, self.total_cycles());
        if requested {
            s.append(" cycles with exit code ");
        } else {
            s.append(" total cycles with exit code ");
        }
        let code = self.exit_code();
        push_dec(&mut s, code as u64);
        s
    }

    /// The number of cycles run before the stop.
    pub fn total_cycles(&self) -> (r: TotalCycles)
        ensures
            r == stop_cycles(*self),
    {
        match self {
            StopReason::UnexpectedInterrupt { total_cycles } => *total_cycles,
            StopReason::UserBreak { total_cycles } => *total_cycles,
            StopReason::RequestedCyclesExecuted { total_cycles } => *total_cycles,
            StopReason::Halt { total_cycles, .. } => *total_cycles,
        }
    }
}

/// The three interrupt vectors as stored in memory.
#[derive(Clone, Copy, Debug, PartialEq, Eq, Structural)]
pub struct Vectors {
    pub nmi: u16,
    pub reset: u16,
    pub irq: u16,
}

impl Vectors {
    /// Reads the vectors from the top of memory.
    pub fn from_state(s: &VmState) -> (r: Vectors)
        requires
            s.wf(),
        ensures
            r.nmi == word_at(s.memory@, NMI),
            r.reset == word_at(s.memory@, RESET),
            r.irq == word_at(s.memory@, IRQ),
    {
        Vectors { nmi: s.load_word(NMI), reset: s.load_word(RESET), irq: s.load_word(IRQ) }
    }
}

/// The options of a debugging session: the image to run, where to load
/// and start it, and the machine to emulate.
#[derive(Debug)]
pub struct DebugOptions {
    pub path: String,
    pub load: Option<u16>,
    pub start: Option<u16>,
    pub machine: Option<String>,
}

/// What becomes of a run after an instruction and the bus event that came
/// with it.
#[derive(Clone, Copy, Debug, PartialEq, Eq, Structural)]
pub enum EventOutcome {
    /// Go on.
    Continue,
    /// Write a snapshot of the machine, then go on.
    Snapshot,
    /// The run is over.
    Stop(StopReason),
    /// The byte at the program counter is not a documented opcode (or the
    /// cycle count is at its limit): nothing was run. Undocumented opcodes
    /// are not emulated; the emulator gives up on them.
    CannotStep,
}

/// What remains to do after the checks that follow an instruction.
#[derive(Debug, PartialEq, Eq)]
pub enum Checked {
    /// Run the next instruction.
    Continue,
    /// The run is over.
    Stop(StopReason),
    /// The program called the host hook: carry out the action (A holds the
    /// outcome already when it is `Done`), then return from the hook.
    HostHook(HostHookAction),
    /// The program called the character output routine: write the
    /// character; the routine has returned already.
    WriteChar(u8),
}

/// The settings of a run that its decisions depend on.
#[derive(Clone, Copy, Debug, PartialEq, Eq, Structural)]
pub struct Runner {
    /// Stop once this many cycles have run.
    pub stop_after: Option<u64>,
    /// Stop when the program counter reaches this address.
    pub halt_addr: Option<u16>,
    /// Call the host hook when the program counter reaches this address.
    pub host_hook_addr: Option<u16>,
    /// Write the character in A, and return, when the program counter
    /// reaches this address.
    pub write_char_addr: Option<u16>,
}

/// The machine after the bus event, and the outcome: a user break stops the
/// run, a reset jumps through the RESET vector, a snapshot request is passed
/// on; no event changes nothing.
pub open spec fn event_spec(m: Machine, total_cycles: u64, event: Option<BusEvent>) -> (Machine, EventOutcome) {
    match event {
        None => (m, EventOutcome::Continue),
        Some(BusEvent::UserBreak) => (m, EventOutcome::Stop(StopReason::UserBreak { total_cycles })),
        Some(BusEvent::Reset) => (
            Machine { reg: Reg { pc: word_at(m.mem, RESET), ..m.reg }, mem: m.mem },
            EventOutcome::Continue,
        ),
        Some(BusEvent::Snapshot) => (m, EventOutcome::Snapshot),
    }
}

/// The stop that the checks after an instruction find, if any: first the
/// cycle limit, then the halt address.
pub open spec fn stop_check(runner: Runner, m: Machine, total_cycles: u64) -> Option<StopReason> {
    if runner.stop_after matches Some(limit) && total_cycles >= limit {
        Some(StopReason::RequestedCyclesExecuted { total_cycles })
    } else if runner.halt_addr matches Some(addr) && m.reg.pc == addr {
        Some(StopReason::Halt { total_cycles, a: m.reg.a })
    } else {
        None
    }
}

impl Runner {
    /// Runs one instruction, then deals with the bus event that came with it
    /// (see `event_spec`). When the instruction cannot run (an opcode that is
    /// not documented, or a cycle count at its limit), nothing changes and the
    /// outcome says so.
    pub fn step<M: Monitor>(&self, vm: &mut Vm<M>, event: Option<BusEvent>) -> (r: EventOutcome)
        requires
            old(vm).s.wf(),
        ensures
            final(vm).s.wf(),
            final(vm).monitor == old(vm).monitor,
            !can_step(old(vm).s@) || old(vm).total_cycles > u64::MAX - MAX_INSTRUCTION_CYCLES ==> r
                == EventOutcome::CannotStep && final(vm).s@ == old(vm).s@ && final(vm).total_cycles
                == old(vm).total_cycles && final(vm).monitor_calls@ == old(vm).monitor_calls@,
            can_step(old(vm).s@) && old(vm).total_cycles <= u64::MAX - MAX_INSTRUCTION_CYCLES ==> {
                let stepped = step_spec(old(vm).s@);
                let total = (old(vm).total_cycles + stepped.1) as u64;
                &&& final(vm).total_cycles == total
                &&& final(vm).monitor_calls@ == old(vm).monitor_calls@ + step_calls(
                    old(vm).total_cycles,
                    old(vm).s@,
                )
                &&& (final(vm).s@, r) == event_spec(stepped.0, total, event)
            },
    {
        match vm.try_step() {
            None => EventOutcome::CannotStep,
            Some(_) => match event {
                None => EventOutcome::Continue,
                Some(BusEvent::UserBreak) => EventOutcome::Stop(
                    StopReason::UserBreak { total_cycles: vm.total_cycles },
                ),
                Some(BusEvent::Reset) => {
                    let target = vm.s.load_word(RESET);
                    vm.s.reg.pc = target;
                    EventOutcome::Continue
                },
                Some(BusEvent::Snapshot) => EventOutcome::Snapshot,
            },
        }
    }

    /// The checks after an instruction and its event: the cycle limit and the
    /// halt address (see `stop_check`), then the host hook, whose part that
    /// needs no file system runs here (see `host_hook_spec`).
    pub fn check<M: Monitor>(&self, vm: &mut Vm<M>) -> (r: Result<Checked, HostHookError>)
        requires
            old(vm).s.wf(),
        ensures
            final(vm).s.wf(),
            final(vm).monitor == old(vm).monitor,
            final(vm).total_cycles == old(vm).total_cycles,
            final(vm).s.memory@ == old(vm).s.memory@,
            match stop_check(*self, old(vm).s@, old(vm).total_cycles) {
                Some(reason) => r == Ok::<Checked, HostHookError>(Checked::Stop(reason))
                    && final(vm).s.reg == old(vm).s.reg,
                None => if self.host_hook_addr == Some(old(vm).s.reg.pc) {
                    match host_hook_spec(old(vm).s.reg, old(vm).s.memory@) {
                        Err(e) => r == Err::<Checked, HostHookError>(e) && final(vm).s.reg == old(
                            vm,
                        ).s.reg,
                        Ok((reg, action)) => r matches Ok(Checked::HostHook(a)) && a@ == action
                            && final(vm).s.reg == reg,
                    }
                } else if self.write_char_addr == Some(old(vm).s.reg.pc) {
                    r == Ok::<Checked, HostHookError>(Checked::WriteChar(old(vm).s.reg.a))
                        && final(vm).s.reg == returned(old(vm).s.reg, old(vm).s.memory@)
                } else {
                    r == Ok::<Checked, HostHookError>(Checked::Continue) && final(vm).s.reg == old(
                        vm,
                    ).s.reg
                },
            },
    {
        if let Some(limit) = self.stop_after {
            if vm.total_cycles >= limit {
                return Ok(Checked::Stop(StopReason::RequestedCyclesExecuted { total_cycles: vm.total_cycles }));
            }
        }
        if let Some(addr) = self.halt_addr {
            if vm.s.reg.pc == addr {
                return Ok(Checked::Stop(StopReason::Halt { total_cycles: vm.total_cycles, a: vm.s.reg.a }));
            }
        }
        if let Some(addr) = self.host_hook_addr {
            if vm.s.reg.pc == addr {
                return match handle_host_hook(&mut vm.s) {
                    Ok(action) => Ok(Checked::HostHook(action)),
                    Err(e) => Err(e),
                };
            }
        }
        if let Some(addr) = self.write_char_addr {
            if vm.s.reg.pc == addr {
                let a = vm.s.reg.a;
                return_from_host_hook(&mut vm.s);
                return Ok(Checked::WriteChar(a));
            }
        }
        Ok(Checked::Continue)
    }
}

/// The registers after a return from a subroutine (an `RTS`): the stack
/// pointer two bytes up, and the program counter one past the address pulled.
pub open spec fn returned(reg: Reg, mem: Seq<u8>) -> Reg {
    Reg { sp: wrap8(reg.sp + 2), pc: wrap16(top_word(mem, reg.sp) + 1), ..reg }
}

/// Returns from the host hook, or from any routine the runner stands in
/// for: pulls the return address that the `JSR` pushed and continues at the
/// byte after it.
pub fn return_from_host_hook(s: &mut VmState)
    requires
        old(s).wf(),
    ensures
        final(s).wf(),
        final(s).memory@ == old(s).memory@,
        final(s).reg == returned(old(s).reg, old(s).memory@),
{
    let return_addr = s.pull_word().wrapping_add(1);
    s.reg.pc = return_addr;
}

} // verus!
