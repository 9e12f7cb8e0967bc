use crate::command_line::find_char;
use crate::symbols::{chars_le, lemma_name_le_total, lemma_name_le_transitive, name_le};
use crate::text::{
    chars_of, dec_text, hex_text, parse_hex, parse_hex_spec, push_char, push_dec, push_hex, push_radix,
    radix_text,
};
use vstd::prelude::*;

verus! {

/// One byte of memory in a test scenario: an address and the value there.
#[derive(Clone, Copy, Debug, PartialEq, Eq, Structural)]
pub struct AddressValue {
    pub address: u16,
    pub value: u8,
}

/// A processor state in a test scenario: the registers and some bytes of
/// memory.
#[derive(Debug)]
pub struct State {
    pub pc: u16,
    pub sp: u8,
    pub a: u8,
    pub x: u8,
    pub y: u8,
    pub p: u8,
    pub ram: Vec<AddressValue>,
}

/// `ram` with `e` inserted after the last entry whose address is no greater.
pub open spec fn insert_by_address(ram: Seq<AddressValue>, e: AddressValue) -> Seq<AddressValue>
    decreases ram.len(),
{
    if ram.len() == 0 {
        seq![e]
    } else if ram.last().address <= e.address {
        ram.push(e)
    } else {
        insert_by_address(ram.drop_last(), e).push(ram.last())
    }
}

/// The stable sort of `ram` by address.
pub open spec fn sort_by_address(ram: Seq<AddressValue>) -> Seq<AddressValue>
    decreases ram.len(),
{
    if ram.len() == 0 {
        Seq::empty()
    } else {
        insert_by_address(sort_by_address(ram.drop_last()), ram.last())
    }
}

/// The line of an 8-bit register: `  s : $FF  (255)`.
pub open spec fn byte_line(label: Seq<char>, v: u8) -> Seq<char> {
    "  "@ + label + ": $"@ + hex_text(v as nat, 2) + "  ("@ + dec_text(v as nat) + ")\n"@
}

/// The line of one byte of memory: `    0200 2A (42)`.
pub open spec fn ram_line(e: AddressValue) -> Seq<char> {
    "    "@ + hex_text(e.address as nat, 4) + " "@ + hex_text(e.value as nat, 2) + " ("@ + dec_text(
        e.value as nat,
    ) + ")\n"@
}

/// The lines of the bytes of memory, in the order given.
pub open spec fn ram_lines(ram: Seq<AddressValue>) -> Seq<char>
    decreases ram.len(),
{
    if ram.len() == 0 {
        Seq::empty()
    } else {
        ram_lines(ram.drop_last()) + ram_line(ram.last())
    }
}

/// How a state is shown: the program counter, the four 8-bit registers, the
/// status register in decimal, binary and hexadecimal, then the bytes of
/// memory by address; every line ends with a newline.
pub open spec fn state_text(pc: u16, sp: u8, a: u8, x: u8, y: u8, p: u8, ram: Seq<AddressValue>) -> Seq<
    char,
> {
    "  pc: $"@ + hex_text(pc as nat, 4) + " ("@ + dec_text(pc as nat) + ")\n"@ + byte_line("s "@, sp)
        + byte_line("a "@, a) + byte_line("x "@, x) + byte_line("y "@, y) + "  p : "@ + dec_text(
        p as nat,
    ) + " (0b"@ + radix_text(p as nat, 2, 8) + ") ($"@ + hex_text(p as nat, 2) + ") ("@ + dec_text(
        p as nat,
    ) + ")\n"@ + ram_lines(sort_by_address(ram))
}

proof fn lemma_insert_by_address(s: Seq<AddressValue>, e: AddressValue, j: int)
    requires
        0 <= j <= s.len(),
        j == 0 || s[j - 1].address <= e.address,
        forall|i: int| j <= i < s.len() ==> (#[trigger] s[i]).address > e.address,
    ensures
        insert_by_address(s, e) == s.insert(j, e),
    decreases s.len(),
{
    if s.len() == j {
        if s.len() == 0 {
            assert(s.insert(0, e) =~= seq![e]);
        } else {
            assert(s.insert(j, e) =~= s.push(e));
        }
    } else {
        lemma_insert_by_address(s.drop_last(), e, j);
        assert(s.drop_last().insert(j, e).push(s.last()) =~= s.insert(j, e));
    }
}

proof fn lemma_insert_by_address_bound(s: Seq<AddressValue>, e: AddressValue, b: u16)
    requires
        forall|i: int| 0 <= i < s.len() ==> (#[trigger] s[i]).address <= b,
        e.address <= b,
    ensures
        insert_by_address(s, e).len() == s.len() + 1,
        forall|k: int| 0 <= k < insert_by_address(s, e).len() ==> (#[trigger] insert_by_address(s, e)[k]).address <= b,
    decreases s.len(),
{
    if s.len() > 0 && s.last().address > e.address {
        lemma_insert_by_address_bound(s.drop_last(), e, b);
    }
}

/// Whether the bytes are in order of address.
pub open spec fn ram_in_order(s: Seq<AddressValue>) -> bool {
    forall|i: int, j: int| 0 <= i < j < s.len() ==> (#[trigger] s[i]).address <= (#[trigger] s[j]).address
}

proof fn lemma_insert_by_address_in_order(s: Seq<AddressValue>, e: AddressValue)
    requires
        ram_in_order(s),
    ensures
        ram_in_order(insert_by_address(s, e)),
        insert_by_address(s, e).to_multiset() =~= s.to_multiset().insert(e),
    decreases s.len(),
{
    broadcast use vstd::seq_lib::group_to_multiset_ensures;

    if s.len() == 0 {
        assert(seq![e] =~= Seq::<AddressValue>::empty().push(e));
    } else if s.last().address <= e.address {
    } else {
        let d = s.drop_last();
        lemma_insert_by_address_in_order(d, e);
        lemma_insert_by_address_bound(d, e, s.last().address);
        let inner = insert_by_address(d, e);
        let r = inner.push(s.last());
        assert forall|i: int, j: int| 0 <= i < j < r.len() implies (#[trigger] r[i]).address <= (
        #[trigger] r[j]).address by {
            if j == inner.len() {
                assert(inner[i].address <= s.last().address);
            }
        }
        assert(s =~= d.push(s.last()));
    }
}

/// Sorting the bytes of a state keeps each of them, as often as it occurs,
/// and puts them in order of address.
pub proof fn lemma_sort_by_address(ram: Seq<AddressValue>)
    ensures
        sort_by_address(ram).to_multiset() =~= ram.to_multiset(),
        ram_in_order(sort_by_address(ram)),
    decreases ram.len(),
{
    broadcast use vstd::seq_lib::group_to_multiset_ensures;

    if ram.len() > 0 {
        lemma_sort_by_address(ram.drop_last());
        lemma_insert_by_address_in_order(sort_by_address(ram.drop_last()), ram.last());
        assert(ram =~= ram.drop_last().push(ram.last()));
    }
}

fn sorted_ram(ram: &Vec<AddressValue>) -> (r: Vec<AddressValue>)
    ensures
        r@ == sort_by_address(ram@),
{
    let mut out: Vec<AddressValue> = Vec::new();
    let mut i: usize = 0;
    assert(ram@.take(0) =~= Seq::<AddressValue>::empty());
    while i < ram.len()
        invariant
            i <= ram@.len(),
            out@ == sort_by_address(ram@.take(i as int)),
        decreases ram@.len() - i,
    {
        let e = ram[i];
        let mut j = out.len();
        while j > 0 && out[j - 1].address > e.address
            invariant
                j <= out@.len(),
                forall|k: int| j <= k < out@.len() ==> (#[trigger] out@[k]).address > e.address,
            decreases j,
        {
            j -= 1;
        }
        proof {
            lemma_insert_by_address(out@, e, j as int);
            assert(ram@.take(i + 1).drop_last() =~= ram@.take(i as int));
        }
        out.insert(j, e);
        i += 1;
    }
    assert(ram@.take(i as int) =~= ram@);
    out
}

fn push_byte_line(s: &mut String, label: &str, v: u8)
    ensures
        final(s)@ == old(s)@ + byte_line(label@, v),
{
    s.append("  ");
    s.append(label);
    s.append(": $");
    push_hex(s, v as u64, 2);
    s.append("  (");
    push_dec(s, v as u64);
    s.append(")\n");
    assert(s@ =~= old(s)@ + byte_line(label@, v));
}

impl State {
    /// The state as text (see `state_text`).
    pub fn to_string(&self) -> (r: String)
        ensures
            r@ == state_text(self.pc, self.sp, self.a, self.x, self.y, self.p, self.ram@),
    {
        let mut s = String::new();
        s.append("  pc: $");
        push_hex(&mut s, self.pc as u64, 4);
        s.append(" (");
        push_dec(&mut s, self.pc as u64);
        s.append(")\n");
        push_byte_line(&mut s, "s ", self.sp);
        push_byte_line(&mut s, "a ", self.a);
        push_byte_line(&mut s, "x ", self.x);
        push_byte_line(&mut s, "y ", self.y);
        s.append("  p : ");
        push_dec(&mut s, self.p as u64);
        s.append(" (0b");
        push_radix(&mut s, self.p as u64, 2, 8);
        s.append(") ($");
        push_hex(&mut s, self.p as u64, 2);
        s.append(") (");
        push_dec(&mut s, self.p as u64);
        s.append(")\n");
        let ram = sorted_ram(&self.ram);
        let ghost head = s@;
        let mut i: usize = 0;
        while i < ram.len()
            invariant
                i <= ram@.len(),
                s@ == head + ram_lines(ram@.take(i as int)),
            decreases ram@.len() - i,
        {
            let e = ram[i];
            s.append("    ");
            push_hex(&mut s, e.address as u64, 4);
            s.append(" ");
            push_hex(&mut s, e.value as u64, 2);
            s.append(" (");
            push_dec(&mut s, e.value as u64);
            s.append(")\n");
            assert(ram@.take(i + 1).drop_last() =~= ram@.take(i as int));
            assert(s@ =~= head + ram_lines(ram@.take(i + 1)));
            i += 1;
        }
        assert(ram@.take(i as int) =~= ram@);
        assert(s@ =~= state_text(self.pc, self.sp, self.a, self.x, self.y, self.p, self.ram@));
        s
    }
}

/// Why a scenario filter could not be made.
#[derive(Clone, Copy, Debug, PartialEq, Eq, Structural)]
pub enum ScenarioFilterError {
    /// The filter does not start with an opcode in hexadecimal.
    InvalidOpcode,
}

/// Which test scenarios to run: the files to read them from, and either the
/// one scenario to keep or the names of those to skip.
#[derive(Debug)]
pub struct ScenarioFilter {
    pub paths: Vec<String>,
    pub scenario_name: Option<String>,
    pub skipped_scenario_names: Vec<String>,
}

/// The content of a `ScenarioFilter`.
pub struct ScenarioFilterView {
    pub paths: Seq<Seq<char>>,
    pub scenario_name: Option<Seq<char>>,
    pub skipped_scenario_names: Seq<Seq<char>>,
}

pub open spec fn strings_view(v: Seq<String>) -> Seq<Seq<char>> {
    v.map_values(|s: String| s@)
}

pub open spec fn option_view(o: Option<String>) -> Option<Seq<char>> {
    match o {
        Some(s) => Some(s@),
        None => None,
    }
}

impl View for ScenarioFilter {
    type V = ScenarioFilterView;

    open spec fn view(&self) -> ScenarioFilterView {
        ScenarioFilterView {
            paths: strings_view(self.paths@),
            scenario_name: option_view(self.scenario_name),
            skipped_scenario_names: strings_view(self.skipped_scenario_names@),
        }
    }
}

/// Whether a file name has the extension `json`: it ends in `.json` and
/// something comes before the dot.
pub open spec fn is_json_name(name: Seq<char>) -> bool {
    name.len() > 5 && name.skip(name.len() - 5) == ".json"@
}

/// The names with the extension `json`, in their order.
pub open spec fn json_names(names: Seq<Seq<char>>) -> Seq<Seq<char>>
    decreases names.len(),
{
    if names.len() == 0 {
        Seq::empty()
    } else if is_json_name(names.last()) {
        json_names(names.drop_last()).push(names.last())
    } else {
        json_names(names.drop_last())
    }
}

/// `sorted` with `n` inserted after the last name no greater than it.
pub open spec fn insert_name(sorted: Seq<Seq<char>>, n: Seq<char>) -> Seq<Seq<char>>
    decreases sorted.len(),
{
    if sorted.len() == 0 {
        seq![n]
    } else if name_le(sorted.last(), n) {
        sorted.push(n)
    } else {
        insert_name(sorted.drop_last(), n).push(sorted.last())
    }
}

/// The names in the order of their characters.
pub open spec fn sort_names(names: Seq<Seq<char>>) -> Seq<Seq<char>>
    decreases names.len(),
{
    if names.len() == 0 {
        Seq::empty()
    } else {
        insert_name(sort_names(names.drop_last()), names.last())
    }
}

/// A relative path `name` joined to the directory `dir` with `/`; an
/// absolute `name` stands for itself.
pub open spec fn join_path(dir: Seq<char>, name: Seq<char>) -> Seq<char> {
    if name.len() > 0 && name[0] == '/' {
        name
    } else if dir.len() == 0 || dir.last() == '/' {
        dir + name
    } else {
        dir + "/"@ + name
    }
}

/// The lower-case hexadecimal digit for `d` (below 16).
pub open spec fn lower_hex_char(d: nat) -> char {
    if d < 10 {
        (d + 48) as char
    } else {
        (d + 87) as char
    }
}

/// The file of the scenarios of one opcode: two lower-case hexadecimal
/// digits and `.json`, in `dir`.
pub open spec fn opcode_path(dir: Seq<char>, opcode: u8) -> Seq<char> {
    join_path(dir, seq![lower_hex_char(opcode as nat / 16), lower_hex_char(opcode as nat % 16)] + ".json"@)
}

/// What a scenario filter holds. Without a filter: every file of the
/// directory whose name has the extension `json`, sorted, and no scenario
/// skipped. With a filter: the file of the opcode that the filter starts with
/// (in hexadecimal, up to the first space); when a space follows, the filter
/// names the one scenario to keep.
pub open spec fn scenario_filter_spec(dir: Seq<char>, filter: Option<Seq<char>>, names: Seq<Seq<char>>) -> Result<
    ScenarioFilterView,
    ScenarioFilterError,
> {
    match filter {
        None => Ok(
            ScenarioFilterView {
                paths: sort_names(json_names(names)).map_values(|n: Seq<char>| join_path(dir, n)),
                scenario_name: None,
                skipped_scenario_names: Seq::empty(),
            },
        ),
        Some(s) => {
            let opcode_text = match find_char(s, ' ') {
                Some(i) => s.take(i as int),
                None => s,
            };
            match parse_hex_spec(opcode_text, 0xff) {
                None => Err(ScenarioFilterError::InvalidOpcode),
                Some(opcode) => Ok(
                    ScenarioFilterView {
                        paths: seq![opcode_path(dir, opcode as u8)],
                        scenario_name: if find_char(s, ' ') is Some {
                            Some(s)
                        } else {
                            None
                        },
                        skipped_scenario_names: Seq::empty(),
                    },
                ),
            }
        },
    }
}

proof fn lemma_insert_name(s: Seq<Seq<char>>, n: Seq<char>, j: int)
    requires
        0 <= j <= s.len(),
        j == 0 || name_le(s[j - 1], n),
        forall|i: int| j <= i < s.len() ==> !name_le(#[trigger] s[i], n),
    ensures
        insert_name(s, n) == s.insert(j, n),
    decreases s.len(),
{
    if s.len() == j {
        if s.len() == 0 {
            assert(s.insert(0, n) =~= seq![n]);
        } else {
            assert(s.insert(j, n) =~= s.push(n));
        }
    } else {
        lemma_insert_name(s.drop_last(), n, j);
        assert(s.drop_last().insert(j, n).push(s.last()) =~= s.insert(j, n));
    }
}

proof fn lemma_insert_name_bound(s: Seq<Seq<char>>, n: Seq<char>, b: Seq<char>)
    requires
        forall|i: int| 0 <= i < s.len() ==> name_le(#[trigger] s[i], b),
        name_le(n, b),
    ensures
        insert_name(s, n).len() == s.len() + 1,
        forall|k: int| 0 <= k < insert_name(s, n).len() ==> name_le(#[trigger] insert_name(s, n)[k], b),
    decreases s.len(),
{
    if s.len() > 0 && !name_le(s.last(), n) {
        lemma_insert_name_bound(s.drop_last(), n, b);
    }
}

/// Whether the names are in the order of their characters.
pub open spec fn names_in_order(s: Seq<Seq<char>>) -> bool {
    forall|i: int, j: int| 0 <= i < j < s.len() ==> name_le(#[trigger] s[i], #[trigger] s[j])
}

proof fn lemma_insert_name_in_order(s: Seq<Seq<char>>, n: Seq<char>)
    requires
        names_in_order(s),
    ensures
        names_in_order(insert_name(s, n)),
        insert_name(s, n).to_multiset() =~= s.to_multiset().insert(n),
    decreases s.len(),
{
    broadcast use vstd::seq_lib::group_to_multiset_ensures;

    if s.len() == 0 {
        assert(seq![n] =~= Seq::<Seq<char>>::empty().push(n));
    } else if name_le(s.last(), n) {
        let r = s.push(n);
        assert forall|i: int, j: int| 0 <= i < j < r.len() implies name_le(
            #[trigger] r[i],
            #[trigger] r[j],
        ) by {
            if j == s.len() && i < s.len() - 1 {
                lemma_name_le_transitive(s[i], s.last(), n);
            }
        }
    } else {
        let d = s.drop_last();
        lemma_insert_name_in_order(d, n);
        lemma_name_le_total(s.last(), n);
        lemma_insert_name_bound(d, n, s.last());
        let inner = insert_name(d, n);
        let r = inner.push(s.last());
        assert forall|i: int, j: int| 0 <= i < j < r.len() implies name_le(
            #[trigger] r[i],
            #[trigger] r[j],
        ) by {
            if j == inner.len() {
                assert(name_le(inner[i], s.last()));
            }
        }
        assert(s =~= d.push(s.last()));
    }
}

/// Sorting names keeps each of them, as often as it occurs, and puts them in
/// the order of their characters.
pub proof fn lemma_sort_names(names: Seq<Seq<char>>)
    ensures
        sort_names(names).to_multiset() =~= names.to_multiset(),
        names_in_order(sort_names(names)),
    decreases names.len(),
{
    broadcast use vstd::seq_lib::group_to_multiset_ensures;

    if names.len() > 0 {
        lemma_sort_names(names.drop_last());
        lemma_insert_name_in_order(sort_names(names.drop_last()), names.last());
        assert(names =~= names.drop_last().push(names.last()));
    }
}

/// The names kept for the extension `json` are exactly those of `names`
/// that have it, in their order.
pub proof fn lemma_json_names(names: Seq<Seq<char>>)
    ensures
        json_names(names) == names.filter(|n: Seq<char>| is_json_name(n)),
    decreases names.len(),
{
    reveal(Seq::filter);
    if names.len() > 0 {
        lemma_json_names(names.drop_last());
    }
}

fn is_json_file_name(name: &Vec<char>) -> (r: bool)
    ensures
        r == is_json_name(name@),
{
    let n = name.len();
    if n <= 5 {
        return false;
    }
    let r = name[n - 5] == '.' && name[n - 4] == 'j' && name[n - 3] == 's' && name[n - 2] == 'o'
        && name[n - 1] == 'n';
    proof {
        reveal_strlit(".json");
        if r {
            assert(name@.skip(n - 5) =~= ".json"@);
        } else {
            assert(name@.skip(n - 5) != ".json"@ ==> !is_json_name(name@));
            if name@.skip(n - 5) == ".json"@ {
                assert(name@.skip(n - 5)[0] == name@[n - 5]);
                assert(name@.skip(n - 5)[1] == name@[n - 4]);
                assert(name@.skip(n - 5)[2] == name@[n - 3]);
                assert(name@.skip(n - 5)[3] == name@[n - 2]);
                assert(name@.skip(n - 5)[4] == name@[n - 1]);
            }
        }
    }
    r
}

/// The names with the extension `json`, sorted.
fn sorted_json_names(names: &Vec<String>) -> (r: Vec<Vec<char>>)
    ensures
        r@.map_values(|v: Vec<char>| v@) == sort_names(json_names(strings_view(names@))),
{
    let ghost all = strings_view(names@);
    let mut out: Vec<Vec<char>> = Vec::new();
    let mut i: usize = 0;
    assert(all.take(0) =~= Seq::<Seq<char>>::empty());
    while i < names.len()
        invariant
            i <= names@.len(),
            all == strings_view(names@),
            out@.map_values(|v: Vec<char>| v@) == sort_names(json_names(all.take(i as int))),
        decreases names@.len() - i,
    {
        let name = chars_of(names[i].as_str());
        assert(all[i as int] == name@);
        let ghost prev = json_names(all.take(i as int));
        assert(all.take(i + 1).drop_last() =~= all.take(i as int));
        assert(all.take(i + 1).last() == all[i as int]);
        if is_json_file_name(&name) {
            assert(json_names(all.take(i + 1)) == prev.push(name@));
            assert(prev.push(name@).drop_last() =~= prev);
            assert(sort_names(prev.push(name@)) == insert_name(sort_names(prev), name@));
            let ghost sorted = out@.map_values(|v: Vec<char>| v@);
            let mut j = out.len();
            while j > 0 && !chars_le(&out[j - 1], &name)
                invariant
                    j <= out@.len(),
                    sorted == out@.map_values(|v: Vec<char>| v@),
                    forall|k: int| j <= k < out@.len() ==> !name_le(#[trigger] sorted[k], name@),
                decreases j,
            {
                j -= 1;
            }
            proof {
                lemma_insert_name(sorted, name@, j as int);
            }
            out.insert(j, name);
            assert(out@.map_values(|v: Vec<char>| v@) =~= sorted.insert(j as int, all[i as int]));
        } else {
            assert(json_names(all.take(i + 1)) == prev);
        }
        i += 1;
    }
    assert(all.take(i as int) =~= all);
    out
}

/// `dir` joined with `name` (see `join_path`).
fn join_path_exec(dir: &Vec<char>, name: &Vec<char>) -> (r: String)
    ensures
        r@ == join_path(dir@, name@),
{
    let mut s = String::new();
    proof {
        reveal_strlit("/");
    }
    if !(name.len() > 0 && name[0] == '/') {
        let mut i: usize = 0;
        while i < dir.len()
            invariant
                i <= dir@.len(),
                s@ == dir@.take(i as int),
            decreases dir@.len() - i,
        {
            push_char(&mut s, dir[i]);
            assert(s@ =~= dir@.take(i + 1));
            i += 1;
        }
        assert(dir@.take(i as int) =~= dir@);
        if dir.len() > 0 && dir[dir.len() - 1] != '/' {
            push_char(&mut s, '/');
            assert(s@ =~= dir@ + "/"@);
        }
    }
    let ghost head = s@;
    let mut i: usize = 0;
    while i < name.len()
        invariant
            i <= name@.len(),
            s@ == head + name@.take(i as int),
        decreases name@.len() - i,
    {
        push_char(&mut s, name[i]);
        assert(s@ =~= head + name@.take(i + 1));
        i += 1;
    }
    assert(name@.take(i as int) =~= name@);
    proof {
        if name@.len() > 0 && name@[0] == '/' {
            assert(s@ =~= join_path(dir@, name@));
        } else if dir@.len() == 0 || dir@.last() == '/' {
            assert(s@ =~= join_path(dir@, name@));
        } else {
            assert(s@ =~= join_path(dir@, name@));
        }
    }
    s
}

fn lower_hex_char_exec(d: u8) -> (r: char)
    requires
        d < 16,
    ensures
        r == lower_hex_char(d as nat),
{
    if d < 10 {
        (d + 48) as char
    } else {
        (d + 87) as char
    }
}

/// Whether the scenario called `name` passes the filter: it is the one
/// named, or, when none is, it is not among those skipped.
pub open spec fn keeps_spec(f: ScenarioFilterView, name: Seq<char>) -> bool {
    match f.scenario_name {
        Some(n) => n == name,
        None => !f.skipped_scenario_names.contains(name),
    }
}

/// The named scenarios that pass the filter, in their order.
pub open spec fn kept<T>(f: ScenarioFilterView, s: Seq<(Seq<char>, T)>) -> Seq<(Seq<char>, T)>
    decreases s.len(),
{
    if s.len() == 0 {
        Seq::empty()
    } else if keeps_spec(f, s.last().0) {
        kept(f, s.drop_last()).push(s.last())
    } else {
        kept(f, s.drop_last())
    }
}

/// A named scenario as plain values.
pub open spec fn named_view<T>(p: (String, T)) -> (Seq<char>, T) {
    (p.0@, p.1)
}

impl ScenarioFilter {
    /// Makes the filter for the scenarios in `json_dir` (see
    /// `scenario_filter_spec`). Without a filter, `file_names` are the names
    /// of the files in that directory; with one, they are not read.
    pub fn new(json_dir: &str, filter: &Option<String>, file_names: &Vec<String>) -> (r: Result<
        ScenarioFilter,
        ScenarioFilterError,
    >)
        ensures
            match scenario_filter_spec(json_dir@, option_view(*filter), strings_view(file_names@)) {
                Ok(v) => r matches Ok(f) && f@ == v,
                Err(e) => r == Err::<ScenarioFilter, ScenarioFilterError>(e),
            },
    {
        let dir = chars_of(json_dir);
        match filter {
            None => {
                let names = sorted_json_names(file_names);
                let ghost sorted = names@.map_values(|v: Vec<char>| v@);
                let mut paths: Vec<String> = Vec::new();
                let mut i: usize = 0;
                while i < names.len()
                    invariant
                        i <= names@.len(),
                        sorted == names@.map_values(|v: Vec<char>| v@),
                        paths@.len() == i,
                        forall|k: int| 0 <= k < i ==> (#[trigger] paths@[k])@ == join_path(dir@, sorted[k]),
                    decreases names@.len() - i,
                {
                    let p = join_path_exec(&dir, &names[i]);
                    paths.push(p);
                    i += 1;
                }
                assert(strings_view(paths@) =~= sorted.map_values(|n: Seq<char>| join_path(dir@, n)));
                let r = ScenarioFilter { paths, scenario_name: None, skipped_scenario_names: Vec::new() };
                assert(strings_view(r.skipped_scenario_names@) =~= Seq::<Seq<char>>::empty());
                Ok(r)
            },
            Some(s) => {
                let v = chars_of(s.as_str());
                let n = v.len();
                let mut i: usize = 0;
                assert(v@.skip(0) =~= v@);
                while i < n && v[i] != ' '
                    invariant
                        n == v@.len(),
                        i <= n,
                        find_char(v@, ' ') == (match find_char(v@.skip(i as int), ' ') {
                            Some(k) => Some((k + i) as nat),
                            None => None,
                        }),
                    decreases n - i,
                {
                    assert(v@.skip(i as int).drop_first() =~= v@.skip(i + 1));
                    i += 1;
                }
                if i == n {
                    assert(v@.skip(i as int) =~= Seq::<char>::empty());
                    assert(v@.subrange(0, i as int) =~= v@);
                } else {
                    assert(v@.subrange(0, i as int) =~= v@.take(i as int));
                }
                let opcode = match parse_hex(&v, 0, i, 0xff) {
                    None => return Err(ScenarioFilterError::InvalidOpcode),
                    Some(op) => op as u8,
                };
                let mut file = Vec::new();
                file.push(lower_hex_char_exec(opcode / 16));
                file.push(lower_hex_char_exec(opcode % 16));
                file.push('.');
                file.push('j');
                file.push('s');
                file.push('o');
                file.push('n');
                proof {
                    reveal_strlit(".json");
                }
                assert(file@ =~= seq![lower_hex_char(opcode as nat / 16), lower_hex_char(opcode as nat % 16)] + ".json"@);
                let path = join_path_exec(&dir, &file);
                let mut paths: Vec<String> = Vec::new();
                paths.push(path);
                let scenario_name = if i == n {
                    None
                } else {
                    Some(s.clone())
                };
                let r = ScenarioFilter { paths, scenario_name, skipped_scenario_names: Vec::new() };
                assert(strings_view(r.paths@) =~= seq![opcode_path(dir@, opcode)]);
                assert(strings_view(r.skipped_scenario_names@) =~= Seq::<Seq<char>>::empty());
                Ok(r)
            },
        }
    }

    /// The scenarios, each given with its name, that pass the filter, in
    /// their order (see `kept`).
    pub fn filter<T>(&self, scenarios: Vec<(String, T)>) -> (r: Vec<(String, T)>)
        ensures
            r@.map_values(|p: (String, T)| named_view(p)) == kept(
                self@,
                scenarios@.map_values(|p: (String, T)| named_view(p)),
            ),
    {
        let ghost all = scenarios@.map_values(|p: (String, T)| named_view(p));
        let mut rest = scenarios;
        let mut out: Vec<(String, T)> = Vec::new();
        let ghost mut i: int = 0;
        assert(all.skip(0) =~= all);
        assert(all.take(0) =~= Seq::<(Seq<char>, T)>::empty());
        while rest.len() > 0
            invariant
                0 <= i <= all.len(),
                rest@.map_values(|p: (String, T)| named_view(p)) == all.skip(i),
                out@.map_values(|p: (String, T)| named_view(p)) == kept(self@, all.take(i)),
            decreases rest@.len(),
        {
            let ghost rest_before = rest@;
            assert(rest_before.map_values(|p: (String, T)| named_view(p)).len() == all.len() - i);
            let p = rest.remove(0);
            assert(all[i] == named_view(p)) by {
                assert(rest_before.map_values(|p: (String, T)| named_view(p))[0] == named_view(p));
                assert(all.skip(i)[0] == all[i]);
            }
            assert(all.take(i + 1).drop_last() =~= all.take(i));
            assert(all.take(i + 1).last() == all[i]);
            let ghost before = out@.map_values(|p: (String, T)| named_view(p));
            if self.keeps(&p.0) {
                out.push(p);
                assert(out@.map_values(|p: (String, T)| named_view(p)) =~= before.push(all[i]));
            }
            proof {
                assert(all.skip(i).drop_first() =~= all.skip(i + 1));
                assert(rest@.map_values(|p: (String, T)| named_view(p)) =~= rest_before.map_values(
                    |p: (String, T)| named_view(p),
                ).drop_first());
                i = i + 1;
            }
        }
        assert(all.take(i) =~= all);
        out
    }

    /// Whether the scenario called `name` passes the filter (see `keeps_spec`).
    pub fn keeps(&self, name: &String) -> (r: bool)
        ensures
            r == keeps_spec(self@, name@),
    {
        match &self.scenario_name {
            Some(n) => *n == *name,
            None => {
                let mut i: usize = 0;
                while i < self.skipped_scenario_names.len()
                    invariant
                        self.scenario_name is None,
                        i <= self.skipped_scenario_names@.len(),
                        forall|k: int| 0 <= k < i ==> self@.skipped_scenario_names[k] != name@,
                    decreases self.skipped_scenario_names@.len() - i,
                {
                    if self.skipped_scenario_names[i] == *name {
                        assert(self@.skipped_scenario_names[i as int] == name@);
                        assert(self@.skipped_scenario_names.contains(name@));
                        return false;
                    }
                    i += 1;
                }
                true
            },
        }
    }
}

} // verus!
