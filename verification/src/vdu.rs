use crate::text::{dec_text, push_dec};
use vstd::prelude::*;

verus! {

/// The VDU code table: for each code, the number of argument bytes that
/// follow it and whether the terminal carries out an action for it (12,
/// clear text area; 17, define text colour). `None` for a byte that is not a
/// VDU code.
pub open spec fn vdu_info(c: u8) -> Option<(nat, bool)> {
    if c == 127 {
        Some((0, false))
    } else if c >= 32 {
        None
    } else {
        let n: nat = if c == 1 || c == 17 || c == 22 {
            1
        } else if c == 18 || c == 31 {
            2
        } else if c == 28 || c == 29 {
            4
        } else if c == 19 || c == 25 {
            5
        } else if c == 24 {
            8
        } else if c == 23 {
            9
        } else {
            0
        };
        Some((n, c == 12 || c == 17))
    }
}

/// What each VDU code does, in words.
pub open spec fn vdu_description(c: u8) -> Seq<char> {
    if c == 0 {
        "Does nothing"@
    } else if c == 1 {
        "Send next character to printer only"@
    } else if c == 2 {
        "Enable printer"@
    } else if c == 3 {
        "Disable printer"@
    } else if c == 4 {
        "Write text at text cursor"@
    } else if c == 5 {
        "Write text at graphics cursor"@
    } else if c == 6 {
        "Enable VDU drivers"@
    } else if c == 7 {
        "Make short beep (BEL)"@
    } else if c == 8 {
        "Move cursor back one character"@
    } else if c == 9 {
        "Move cursor forward one character"@
    } else if c == 10 {
        "Move cursor down one line"@
    } else if c == 11 {
        "Move cursor up one line"@
    } else if c == 12 {
        "Clear text area"@
    } else if c == 13 {
        "Carriage return"@
    } else if c == 14 {
        "Paged mode on"@
    } else if c == 15 {
        "Paped mode off"@
    } else if c == 16 {
        "Clear graphics area"@
    } else if c == 17 {
        "Define text colour"@
    } else if c == 18 {
        "Define graphics colour"@
    } else if c == 19 {
        "Define logical colour"@
    } else if c == 20 {
        "Restore default logical colours"@
    } else if c == 21 {
        "Disable VDU drivers or delete input line"@
    } else if c == 22 {
        "Select screen MODE"@
    } else if c == 23 {
        "Re-program display character + various other fn's"@
    } else if c == 24 {
        "Define graphics window"@
    } else if c == 25 {
        "PLOT k,x,y"@
    } else if c == 26 {
        "Restore default windows"@
    } else if c == 27 {
        "ESCAPE value"@
    } else if c == 28 {
        "Define text window"@
    } else if c == 29 {
        "Define graphics origin"@
    } else if c == 30 {
        "Home text cursor to top left of window"@
    } else if c == 31 {
        "Move text cursor to x, y"@
    } else {
        "Backspace and delete"@
    }
}

/// The bytes in decimal, joined by `, `.
pub open spec fn dec_list(args: Seq<u8>) -> Seq<char>
    decreases args.len(),
{
    if args.len() == 0 {
        Seq::empty()
    } else if args.len() == 1 {
        dec_text(args[0] as nat)
    } else {
        dec_list(args.drop_last()) + ", "@ + dec_text(args.last() as nat)
    }
}

/// The notice for a code with arguments that the terminal does not carry out:
/// `[VDU 31, 10, 5 (Move text cursor to x, y) unimplemented]`.
pub open spec fn vdu_message(c: u8, args: Seq<u8>) -> Seq<char> {
    "[VDU "@ + dec_text(c as nat) + ", "@ + dec_list(args) + " ("@ + vdu_description(c)
        + ") unimplemented]"@
}

/// What becomes of a byte written to the VDU driver.
#[derive(Debug, PartialEq, Eq)]
pub enum VduOutput {
    /// Write the character.
    Char(u8),
    /// Nothing to write: the byte began a code or was one of its arguments.
    Pending,
    /// Carry out the action of the code, with its arguments.
    Action(u8, Vec<u8>),
    /// Show the notice that the code is not implemented.
    Unimplemented(String),
}

/// The content of a `VduOutput`.
#[verifier::ext_equal]
pub enum VduOutputView {
    Char(u8),
    Pending,
    Action(u8, Seq<u8>),
    Unimplemented(Seq<char>),
}

impl View for VduOutput {
    type V = VduOutputView;

    open spec fn view(&self) -> VduOutputView {
        match self {
            VduOutput::Char(c) => VduOutputView::Char(*c),
            VduOutput::Pending => VduOutputView::Pending,
            VduOutput::Action(c, args) => VduOutputView::Action(*c, args@),
            VduOutput::Unimplemented(m) => VduOutputView::Unimplemented(m@),
        }
    }
}

/// The state of the VDU driver: the code whose arguments are being collected,
/// if any, and the arguments so far.
#[verifier::ext_equal]
pub struct VduState {
    pub code: Option<u8>,
    pub args: Seq<u8>,
}

/// One byte through the VDU driver. While a code collects arguments, the
/// byte is one of them; with the last one the code is done: its action, or
/// the notice. Otherwise a code with arguments starts collecting them, a code
/// with an action and no arguments is carried out, and any other byte is
/// written as it is.
pub open spec fn vdu_step(st: VduState, value: u8) -> (VduState, VduOutputView) {
    match st.code {
        Some(c) => {
            let args = st.args.push(value);
            let n = vdu_info(c).unwrap().0;
            if args.len() == n {
                (
                    VduState { code: None, args: Seq::empty() },
                    if vdu_info(c).unwrap().1 {
                        VduOutputView::Action(c, args)
                    } else {
                        VduOutputView::Unimplemented(vdu_message(c, args))
                    },
                )
            } else {
                (VduState { code: Some(c), args }, VduOutputView::Pending)
            }
        },
        None => match vdu_info(value) {
            None => (st, VduOutputView::Char(value)),
            Some((n, action)) => if n == 0 {
                if action {
                    (st, VduOutputView::Action(value, st.args))
                } else {
                    (st, VduOutputView::Char(value))
                }
            } else {
                (VduState { code: Some(value), args: Seq::empty() }, VduOutputView::Pending)
            },
        },
    }
}

/// The states the driver can be in: no code and no arguments, or a code of
/// the table with fewer arguments than it takes.
pub open spec fn vdu_wf(st: VduState) -> bool {
    match st.code {
        None => st.args.len() == 0,
        Some(c) => vdu_info(c) matches Some((n, _)) && st.args.len() < n,
    }
}

/// One byte keeps the driver in one of its states. With no code pending,
/// the byte is written as it is exactly when it is no VDU code or a code with
/// neither arguments nor an action; while a code is pending, every byte but
/// the last of its arguments gives nothing.
pub proof fn lemma_vdu_step(st: VduState, value: u8)
    requires
        vdu_wf(st),
    ensures
        vdu_wf(vdu_step(st, value).0),
        st.code is None ==> (vdu_step(st, value).1 == VduOutputView::Char(value) <==> (vdu_info(
            value,
        ) is None || vdu_info(value) == Some((0nat, false)))),
        st.code is Some && vdu_step(st, value).0.code is Some ==> vdu_step(st, value).1
            == VduOutputView::Pending,
{
    assert(vdu_step(st, value).0.code is None ==> vdu_step(st, value).0.args =~= Seq::<u8>::empty());
}

/// A run of bytes keeps the driver in one of its states.
pub proof fn lemma_vdu_run_wf(st: VduState, bytes: Seq<u8>)
    requires
        vdu_wf(st),
    ensures
        vdu_wf(vdu_run(st, bytes).0),
        vdu_run(st, bytes).1.len() == bytes.len(),
    decreases bytes.len(),
{
    if bytes.len() > 0 {
        lemma_vdu_step(st, bytes[0]);
        lemma_vdu_run_wf(vdu_step(st, bytes[0]).0, bytes.drop_first());
    }
}

/// The driver's state and outputs after a run of bytes.
pub open spec fn vdu_run(st: VduState, bytes: Seq<u8>) -> (VduState, Seq<VduOutputView>)
    decreases bytes.len(),
{
    if bytes.len() == 0 {
        (st, Seq::empty())
    } else {
        let (next, out) = vdu_step(st, bytes[0]);
        let (last, outs) = vdu_run(next, bytes.drop_first());
        (last, seq![out] + outs)
    }
}

/// The state of a driver that is not in the middle of a code.
pub open spec fn vdu_idle() -> VduState {
    VduState { code: None, args: Seq::empty() }
}

/// What a code gives once all its arguments are in: its action, or the notice.
pub open spec fn vdu_done(c: u8, args: Seq<u8>) -> VduOutputView {
    if vdu_info(c).unwrap().1 {
        VduOutputView::Action(c, args)
    } else {
        VduOutputView::Unimplemented(vdu_message(c, args))
    }
}

proof fn lemma_vdu_collect(c: u8, prefix: Seq<u8>, rest: Seq<u8>)
    requires
        vdu_info(c) matches Some((n, _)) && prefix.len() + rest.len() == n,
        rest.len() > 0,
    ensures
        vdu_run(VduState { code: Some(c), args: prefix }, rest).0 == vdu_idle(),
        vdu_run(VduState { code: Some(c), args: prefix }, rest).1 =~~= Seq::new(
            (rest.len() - 1) as nat,
            |i: int| VduOutputView::Pending,
        ).push(vdu_done(c, prefix + rest)),
    decreases rest.len(),
{
    let st = VduState { code: Some(c), args: prefix };
    let next = vdu_step(st, rest[0]).0;
    let out = vdu_step(st, rest[0]).1;
    let done = vdu_done(c, prefix + rest);
    let pendings = Seq::new((rest.len() - 1) as nat, |i: int| VduOutputView::Pending);
    assert(vdu_run(st, rest).0 == vdu_run(next, rest.drop_first()).0);
    assert(vdu_run(st, rest).1 == seq![out] + vdu_run(next, rest.drop_first()).1);
    if rest.len() == 1 {
        assert(prefix + rest =~= prefix.push(rest[0]));
        assert(next =~= vdu_idle());
        assert(out == done);
        assert(vdu_run(next, rest.drop_first()).1 =~= Seq::<VduOutputView>::empty());
        assert(seq![out] + Seq::<VduOutputView>::empty() =~~= pendings.push(done));
    } else {
        let p2 = prefix.push(rest[0]);
        assert(out == VduOutputView::Pending);
        assert(next =~= VduState { code: Some(c), args: p2 });
        lemma_vdu_collect(c, p2, rest.drop_first());
        assert(p2 + rest.drop_first() =~= prefix + rest);
        let inner = Seq::new((rest.len() - 2) as nat, |i: int| VduOutputView::Pending);
        assert(seq![VduOutputView::Pending] + inner.push(done) =~~= pendings.push(done));
    }
}

/// A code with arguments, followed by as many bytes as it takes, leaves the
/// driver where it started, not in the middle of a code; nothing is written
/// until the last argument, which gives the code's action or the notice that
/// it is not implemented.
pub proof fn lemma_vdu_code_completes(c: u8, args: Seq<u8>)
    requires
        vdu_info(c) matches Some((n, _)) && n > 0 && args.len() == n,
    ensures
        vdu_run(vdu_idle(), seq![c] + args).0 == vdu_idle(),
        vdu_run(vdu_idle(), seq![c] + args).1 =~~= seq![VduOutputView::Pending] + Seq::new(
            (args.len() - 1) as nat,
            |i: int| VduOutputView::Pending,
        ).push(vdu_done(c, args)),
{
    let bytes = seq![c] + args;
    assert(bytes[0] == c);
    assert(bytes.drop_first() =~= args);
    lemma_vdu_collect(c, Seq::empty(), args);
    assert(Seq::<u8>::empty() + args =~= args);
    assert(vdu_step(vdu_idle(), c).0 =~= VduState { code: Some(c), args: Seq::empty() });
}

/// The VDU codes are the bytes below 32 and 127. Each takes as many argument
/// bytes as the Acorn VDU table gives: one for 1, 17 and 22; two for 18 and
/// 31; four for 28 and 29; five for 19 and 25; eight for 24; nine for 23;
/// none for the others. The terminal carries out 12 and 17 only.
pub proof fn lemma_vdu_argument_counts(c: u8)
    ensures
        vdu_info(c) is Some <==> (c < 32 || c == 127),
        c == 1 || c == 17 || c == 22 ==> vdu_info(c).unwrap().0 == 1,
        c == 18 || c == 31 ==> vdu_info(c).unwrap().0 == 2,
        c == 28 || c == 29 ==> vdu_info(c).unwrap().0 == 4,
        c == 19 || c == 25 ==> vdu_info(c).unwrap().0 == 5,
        c == 24 ==> vdu_info(c).unwrap().0 == 8,
        c == 23 ==> vdu_info(c).unwrap().0 == 9,
        (c < 32 || c == 127) && c != 1 && c != 17 && c != 22 && c != 18 && c != 31 && c != 28 && c
            != 29 && c != 19 && c != 25 && c != 24 && c != 23 ==> vdu_info(c).unwrap().0 == 0,
        vdu_info(c) is Some ==> (vdu_info(c).unwrap().1 <==> (c == 12 || c == 17)),
{
}

/// A code with one argument (1, 17 or 22) followed by any byte: the code
/// gives nothing, the byte completes it (17 defines the text colour; 1 and
/// 22, such as `VDU 22, 7`, give their notice) and the driver is idle again.
pub proof fn lemma_vdu_one_argument(c: u8, b: u8)
    requires
        c == 1 || c == 17 || c == 22,
    ensures
        vdu_run(vdu_idle(), seq![c, b]).0 == vdu_idle(),
        vdu_run(vdu_idle(), seq![c, b]).1 == seq![
            VduOutputView::Pending,
            if c == 17 {
                VduOutputView::Action(c, seq![b])
            } else {
                VduOutputView::Unimplemented(vdu_message(c, seq![b]))
            },
        ],
{
    lemma_vdu_code_completes(c, seq![b]);
    assert(seq![c] + seq![b] =~= seq![c, b]);
    let pendings = Seq::new(0nat, |i: int| VduOutputView::Pending);
    assert(seq![VduOutputView::Pending] + pendings.push(vdu_done(c, seq![b])) =~= seq![
        VduOutputView::Pending,
        vdu_done(c, seq![b]),
    ]);
}

/// The VDU driver of an Acorn machine: it interprets control codes and their
/// argument bytes in what the program writes.
#[derive(Debug)]
pub struct VduDriver {
    code: Option<u8>,
    args: Vec<u8>,
}

impl View for VduDriver {
    type V = VduState;

    closed spec fn view(&self) -> VduState {
        VduState { code: self.code, args: self.args@ }
    }
}

impl VduDriver {
    #[verifier::type_invariant]
    spec fn collecting(&self) -> bool {
        vdu_wf(self@)
    }

    /// Passes one byte through the driver (see `vdu_step`).
    pub fn process(&mut self, value: u8) -> (r: VduOutput)
        ensures
            vdu_wf(old(self)@),
            vdu_wf(final(self)@),
            final(self)@ == vdu_step(old(self)@, value).0,
            r@ == vdu_step(old(self)@, value).1,
    {
        proof {
            use_type_invariant(&*self);
            lemma_vdu_step(self@, value);
        }
        match self.code {
            Some(c) => {
                let (n, action) = vdu_code_info(c).unwrap();
                let mut args = Vec::new();
                std::mem::swap(&mut args, &mut self.args);
                args.push(value);
                assert(args@ == old(self)@.args.push(value));
                if args.len() == n as usize {
                    self.code = None;
                    assert(self@.args =~= Seq::<u8>::empty());
                    if action {
                        VduOutput::Action(c, args)
                    } else {
                        VduOutput::Unimplemented(unimplemented_message(c, &args))
                    }
                } else {
                    self.args = args;
                    VduOutput::Pending
                }
            },
            None => match vdu_code_info(value) {
                None => VduOutput::Char(value),
                Some((n, action)) => {
                    if n == 0 {
                        if action {
                            VduOutput::Action(value, Vec::new())
                        } else {
                            VduOutput::Char(value)
                        }
                    } else {
                        self.code = Some(value);
                        VduOutput::Pending
                    }
                },
            },
        }
    }
}

impl Default for VduDriver {
    /// A driver that is not in the middle of a code.
    fn default() -> (r: VduDriver)
        ensures
            r@.code is None,
            r@.args.len() == 0,
            vdu_wf(r@),
    {
        VduDriver { code: None, args: Vec::new() }
    }
}

/// The terminal's output device: on an Acorn machine what the program writes
/// goes through the VDU driver first.
#[derive(Debug)]
pub struct TerminalOutput {
    vdu_driver: VduDriver,
}

impl View for TerminalOutput {
    type V = VduState;

    closed spec fn view(&self) -> VduState {
        self.vdu_driver@
    }
}

impl Default for TerminalOutput {
    fn default() -> (r: TerminalOutput)
        ensures
            r@.code is None,
            r@.args.len() == 0,
    {
        TerminalOutput { vdu_driver: VduDriver::default() }
    }
}

/// The bytes that put a character on the terminal: a newline as carriage
/// return and line feed, DEL as `AB`, any other byte as it is.
pub open spec fn terminal_bytes(value: u8) -> Seq<u8> {
    if value == 0x0a {
        seq![13u8, 10u8]
    } else if value == 127 {
        seq![65u8, 66u8]
    } else {
        seq![value]
    }
}

/// The bytes that put a character on a plain output: a newline as carriage
/// return and line feed, any other byte as it is.
pub open spec fn simple_bytes(value: u8) -> Seq<u8> {
    if value == 0x0a {
        seq![13u8, 10u8]
    } else {
        seq![value]
    }
}

impl TerminalOutput {
    /// Takes a byte that the program writes: on an Acorn machine the VDU
    /// driver interprets it (see `vdu_step`); on any other it is written.
    pub fn process(&mut self, acorn: bool, value: u8) -> (r: VduOutput)
        ensures
            acorn ==> final(self)@ == vdu_step(old(self)@, value).0 && r@ == vdu_step(
                old(self)@,
                value,
            ).1,
            !acorn ==> final(self)@ == old(self)@ && r == VduOutput::Char(value),
    {
        if acorn {
            self.vdu_driver.process(value)
        } else {
            VduOutput::Char(value)
        }
    }

    /// The bytes that show a character (see `terminal_bytes`).
    pub fn encode(value: u8) -> (r: Vec<u8>)
        ensures
            r@ == terminal_bytes(value),
    {
        if value == 0x0a {
            vec![13, 10]
        } else if value == 127 {
            vec![65, 66]
        } else {
            vec![value]
        }
    }
}

/// A plain output device, with no VDU driver.
#[derive(Clone, Copy, Debug, PartialEq, Eq, Structural)]
pub struct SimpleOutput;

impl SimpleOutput {
    /// The bytes that show a character (see `simple_bytes`).
    pub fn encode(value: u8) -> (r: Vec<u8>)
        ensures
            r@ == simple_bytes(value),
    {
        if value == 0x0a {
            vec![13, 10]
        } else {
            vec![value]
        }
    }
}

fn vdu_code_info(c: u8) -> (r: Option<(u8, bool)>)
    ensures
        r is None <==> vdu_info(c) is None,
        r matches Some((n, action)) ==> vdu_info(c) == Some((n as nat, action)),
{
    if c == 127 {
        Some((0, false))
    } else if c >= 32 {
        None
    } else {
        let n: u8 = if c == 1 || c == 17 || c == 22 {
            1
        } else if c == 18 || c == 31 {
            2
        } else if c == 28 || c == 29 {
            4
        } else if c == 19 || c == 25 {
            5
        } else if c == 24 {
            8
        } else if c == 23 {
            9
        } else {
            0
        };
        Some((n, c == 12 || c == 17))
    }
}

fn description(c: u8) -> (r: &'static str)
    ensures
        r@ == vdu_description(c),
{
    if c == 0 {
        "Does nothing"
    } else if c == 1 {
        "Send next character to printer only"
    } else if c == 2 {
        "Enable printer"
    } else if c == 3 {
        "Disable printer"
    } else if c == 4 {
        "Write text at text cursor"
    } else if c == 5 {
        "Write text at graphics cursor"
    } else if c == 6 {
        "Enable VDU drivers"
    } else if c == 7 {
        "Make short beep (BEL)"
    } else if c == 8 {
        "Move cursor back one character"
    } else if c == 9 {
        "Move cursor forward one character"
    } else if c == 10 {
        "Move cursor down one line"
    } else if c == 11 {
        "Move cursor up one line"
    } else if c == 12 {
        "Clear text area"
    } else if c == 13 {
        "Carriage return"
    } else if c == 14 {
        "Paged mode on"
    } else if c == 15 {
        "Paped mode off"
    } else if c == 16 {
        "Clear graphics area"
    } else if c == 17 {
        "Define text colour"
    } else if c == 18 {
        "Define graphics colour"
    } else if c == 19 {
        "Define logical colour"
    } else if c == 20 {
        "Restore default logical colours"
    } else if c == 21 {
        "Disable VDU drivers or delete input line"
    } else if c == 22 {
        "Select screen MODE"
    } else if c == 23 {
        "Re-program display character + various other fn's"
    } else if c == 24 {
        "Define graphics window"
    } else if c == 25 {
        "PLOT k,x,y"
    } else if c == 26 {
        "Restore default windows"
    } else if c == 27 {
        "ESCAPE value"
    } else if c == 28 {
        "Define text window"
    } else if c == 29 {
        "Define graphics origin"
    } else if c == 30 {
        "Home text cursor to top left of window"
    } else if c == 31 {
        "Move text cursor to x, y"
    } else {
        "Backspace and delete"
    }
}

fn unimplemented_message(c: u8, args: &Vec<u8>) -> (r: String)
    ensures
        r@ == vdu_message(c, args@),
{
    let mut s = String::new();
    s.append("[VDU ");
    push_dec(&mut s, c as u64);
    s.append(", ");
    let ghost head = s@;
    let mut i: usize = 0;
    while i < args.len()
        invariant
            i <= args@.len(),
            s@ == head + dec_list(args@.take(i as int)),
        decreases args@.len() - i,
    {
        if i > 0 {
            s.append(", ");
        }
        push_dec(&mut s, args[i] as u64);
        assert(args@.take(i + 1).drop_last() =~= args@.take(i as int));
        assert(s@ =~= head + dec_list(args@.take(i + 1)));
        i += 1;
    }
    assert(args@.take(i as int) =~= args@);
    s.append(" (");
    s.append(description(c));
    s.append(") unimplemented]");
    assert(s@ =~= vdu_message(c, args@));
    s
}

} // verus!
