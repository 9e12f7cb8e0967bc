//! The r6502 MOS 6502 emulator and debugger: the processor and its memory,
//! the decisions of the terminal runner and of the debugger, the Acorn host
//! hooks and VDU driver, the cc65 linker map file and image header readers,
//! and the text that the emulator shows.
mod addressing;
mod alu;
mod branches;
mod calls;
mod catalogue;
mod command_line;
mod debug_host;
mod dump;
mod execute;
mod export_list;
mod host_hooks;
mod image;
mod info;
mod instruction;
mod operations;
mod memory;
mod reg;
mod runner;
mod symbols;
mod text;
mod util;
mod validation;
mod vdu;
mod vm;
mod vm_state;

pub use memory::{Memory, MEMORY_SIZE};
pub use reg::{
    get_flag, set_flag, set_nz, Reg, FLAG_ALWAYS_ONE, FLAG_B, FLAG_C, FLAG_D, FLAG_I, FLAG_N,
    FLAG_V, FLAG_Z,
};
pub use util::{crosses_page_boundary, make_word, split_word};
pub use vm_state::{VmState, STACK_BASE};
pub use instruction::{decode, instruction_len, Instr, Mode, Op};
pub use execute::{Machine, IRQ, NMI, RESET};
pub use vm::{
    DummyMonitor, InstructionInfo, Monitor, MonitorCall, TotalCycles, Vm, MAX_INSTRUCTION_CYCLES,
};
pub use symbols::{AddressSize, Export, ExportKind, MapFileError, Module, ModuleName, ModuleSegment};
pub use export_list::{ExportListInfo, ExportSortOrder};
pub use text::{iter_map_file_lines, MapFileLines};
pub use command_line::{parse_command_line, CommandLineError};
pub use host_hooks::{
    can_load, finish_host_hook, handle_host_hook, load_memory, memory_range,
    read_cr_terminated_string, read_dword, read_word, resolve_dir, save_plan, write_dword,
    HostHookAction, HostHookError, LoadRequest, SavePlan, SaveRequest, CLIV_HOST_HOOK, CR,
    FILEV_HOST_HOOK, HOOK_BRK, HOOK_OK, OSAREG,
};
pub use image::{snapshot_bytes, CpuState, ImageReader, OtherImageHeader, R6502ImageType};
pub use validation::{AddressValue, ScenarioFilter, ScenarioFilterError, State};
pub use vdu::{SimpleOutput, TerminalOutput, VduDriver, VduOutput};
pub use runner::{
    return_from_host_hook, BusEvent, Checked, DebugOptions, EventOutcome, Runner, StopReason,
    TerminalEvent, Vectors,
};
pub use dump::format_snapshot;
pub use catalogue::catalogue_lines;
pub use debug_host::{
    debugger_key, output_char_text, route_key, AfterStep, DebugHost, DebugKey, DebugMessage,
    DebugState, KeyOutcome,
    MessageOutcome, UiKey,
};
pub use info::{show_image_info, show_run_info, ImageInfo, RunOptions};
