# r6502

A MOS 6502 emulator and debugger, written in Verus.

- `src/` is the verified library: the processor (decoding, addressing,
  every documented instruction, the stack), the memory, the terminal runner's
  and the debugger's decisions, the Acorn host hooks and VDU driver, the cc65
  linker map file reader, image headers, test-scenario filters, and the text
  the emulator shows. Each public function states what it does in its
  contract; the laws that relate functions (a return after a call, a pull
  after a push, sorted lists, the VDU driver's argument handling) are public
  proof functions.
- `app/` holds what talks to the outside world: the command line
  (`r6502 run IMAGE ...`, `r6502 debug IMAGE ...`), the terminal in raw mode,
  keyboard input on its own thread, the file system for the host hooks, the
  debugger's window, snapshot files, and the serde and rkyv forms of
  scenario states.
- `tests/` exercises the library on concrete values.
