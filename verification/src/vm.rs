use crate::execute::{can_step, step_spec, Machine};
use crate::instruction::{decode, instruction, Instr};
use crate::reg::{flag, get_flag, Reg, FLAG_I};
use crate::vm_state::VmState;
use vstd::prelude::*;

verus! {

/// The running count of processor cycles.
pub type TotalCycles = u64;

/// What a monitor is told about the instruction at hand.
#[derive(Clone, Copy, Debug, PartialEq, Eq, Structural)]
pub struct InstructionInfo {
    /// The address of the opcode.
    pub pc: u16,
    /// The opcode byte.
    pub opcode: u8,
    /// Its decoding.
    pub instr: Instr,
}

/// Observes a virtual machine before and after each instruction.
pub trait Monitor {
    fn on_before_execute(&self, total_cycles: TotalCycles, reg: Reg, instruction_info: InstructionInfo);

    fn on_after_execute(&self, total_cycles: TotalCycles, reg: Reg, instruction_info: InstructionInfo);
}

/// A monitor that ignores everything.
pub struct DummyMonitor;

impl Monitor for DummyMonitor {
    fn on_before_execute(&self, total_cycles: TotalCycles, reg: Reg, instruction_info: InstructionInfo) {
    }

    fn on_after_execute(&self, total_cycles: TotalCycles, reg: Reg, instruction_info: InstructionInfo) {
    }
}

/// A call that a machine made to its monitor.
pub enum MonitorCall {
    /// `on_before_execute` with the cycle count, the registers and the instruction.
    BeforeExecute(TotalCycles, Reg, InstructionInfo),
    /// `on_after_execute` with the cycle count, the registers and the instruction.
    AfterExecute(TotalCycles, Reg, InstructionInfo),
}

/// The instruction at the program counter of a machine that can step.
pub open spec fn info_at(m: Machine) -> InstructionInfo {
    InstructionInfo {
        pc: m.reg.pc,
        opcode: m.mem[m.reg.pc as int],
        instr: instruction(m.mem[m.reg.pc as int]).unwrap(),
    }
}

/// The calls one instruction makes to the monitor: before it, with the cycle
/// count and the registers from before; after it, with the same cycle count
/// and the registers from after.
pub open spec fn step_calls(total_cycles: TotalCycles, m: Machine) -> Seq<MonitorCall> {
    seq![
        MonitorCall::BeforeExecute(total_cycles, m.reg, info_at(m)),
        MonitorCall::AfterExecute(total_cycles, step_spec(m).0.reg, info_at(m)),
    ]
}

/// A 6502 with its memory, a monitor, and the number of cycles run so far;
/// `monitor_calls` records every call made to the monitor.
pub struct Vm<M: Monitor> {
    pub monitor: M,
    pub s: VmState,
    pub total_cycles: TotalCycles,
    pub monitor_calls: Ghost<Seq<MonitorCall>>,
}

/// The largest number of cycles one instruction can take.
pub const MAX_INSTRUCTION_CYCLES: u64 = 10;

impl<M: Monitor> Vm<M> {
    pub fn new(monitor: M, s: VmState) -> (r: Self)
        ensures
            r.monitor == monitor,
            r.s == s,
            r.total_cycles == 0,
            r.monitor_calls@ == Seq::<MonitorCall>::empty(),
    {
        Self { monitor, s, total_cycles: 0, monitor_calls: Ghost(Seq::empty()) }
    }

    /// Executes one instruction, telling the monitor before and after, and
    /// returns whether the interrupt-disable flag is clear afterwards (BRK
    /// sets it, so `false` signals a software interrupt).
    pub fn step(&mut self) -> (r: bool)
        requires
            old(self).s.wf(),
            can_step(old(self).s@),
            old(self).total_cycles <= u64::MAX - MAX_INSTRUCTION_CYCLES,
        ensures
            final(self).s.wf(),
            final(self).monitor == old(self).monitor,
            final(self).s@ == step_spec(old(self).s@).0,
            final(self).total_cycles == old(self).total_cycles + step_spec(old(self).s@).1,
            final(self).monitor_calls@ == old(self).monitor_calls@ + step_calls(
                old(self).total_cycles,
                old(self).s@,
            ),
            r == !flag(final(self).s.reg.p, FLAG_I),
    {
        let pc = self.s.reg.pc;
        let opcode = self.s.memory.load(pc);
        let instr = decode(opcode).unwrap();
        let info = InstructionInfo { pc, opcode, instr };
        let ghost before = self.s@;
        self.monitor.on_before_execute(self.total_cycles, self.s.reg, info);
        let cycles = self.s.execute(instr);
        self.monitor.on_after_execute(self.total_cycles, self.s.reg, info);
        proof {
            self.monitor_calls@ = self.monitor_calls@ + seq![
                MonitorCall::BeforeExecute(self.total_cycles, before.reg, info),
                MonitorCall::AfterExecute(self.total_cycles, self.s.reg, info),
            ];
        }
        self.total_cycles = self.total_cycles + cycles as u64;
        !get_flag(self.s.reg.p, FLAG_I)
    }

    /// Like `step`, but returns `None`, leaving everything unchanged, when the
    /// byte at the program counter is not a documented opcode or the cycle
    /// counter is too close to its limit.
    pub fn try_step(&mut self) -> (r: Option<bool>)
        requires
            old(self).s.wf(),
        ensures
            final(self).s.wf(),
            final(self).monitor == old(self).monitor,
            r is None <==> (!can_step(old(self).s@) || old(self).total_cycles > u64::MAX
                - MAX_INSTRUCTION_CYCLES),
            r is None ==> final(self).s@ == old(self).s@ && final(self).total_cycles == old(
                self,
            ).total_cycles && final(self).monitor_calls@ == old(self).monitor_calls@,
            r matches Some(b) ==> final(self).s@ == step_spec(old(self).s@).0
                && final(self).total_cycles == old(self).total_cycles + step_spec(old(self).s@).1
                && final(self).monitor_calls@ == old(self).monitor_calls@ + step_calls(
                old(self).total_cycles,
                old(self).s@,
            ) && b == !flag(final(self).s.reg.p, FLAG_I),
    {
        let opcode = self.s.memory.load(self.s.reg.pc);
        if decode(opcode).is_none() || self.total_cycles > u64::MAX - MAX_INSTRUCTION_CYCLES {
            return None;
        }
        Some(self.step())
    }
}

} // verus!
