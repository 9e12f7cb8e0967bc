use crate::catalogue::pad_right;
use crate::image::CpuState;
use crate::runner::Vectors;
use crate::text::{dec_text, hex_text, push_char, push_dec, push_hex};
use vstd::prelude::*;

verus! {

/// The options of a run that its report shows.
#[derive(Debug)]
pub struct RunOptions {
    /// The image file.
    pub path: String,
    /// The load address to use when the image does not give one.
    pub load: Option<u16>,
    /// The start address to use when the image does not give one.
    pub start: Option<u16>,
    /// Whether to start at the RESET vector.
    pub reset: bool,
    /// Stop once this many cycles have run.
    pub stop_after: Option<u64>,
}

/// What is known of an image: its size, the machine it was made for, and
/// the addresses and stack pointer that it gives.
#[derive(Debug)]
pub struct ImageInfo {
    pub size: usize,
    pub machine_tag: Option<String>,
    pub load: Option<u16>,
    pub start: Option<u16>,
    pub sp: Option<u8>,
}

/// The image's value if it has one, else the option's, else zero.
pub open spec fn either_or_zero(image: Option<u16>, option: Option<u16>) -> u16 {
    match image {
        Some(v) => v,
        None => match option {
            Some(v) => v,
            None => 0,
        },
    }
}

/// `$` and `v` in upper-case hexadecimal, zero-padded to `width`.
pub open spec fn dollar_hex(v: nat, width: nat) -> Seq<char> {
    "$"@ + hex_text(v, width)
}

/// A line of a report: the label padded to `width`, a colon and the value.
pub open spec fn report_line(label: Seq<char>, width: nat, value: Seq<char>) -> Seq<char> {
    pad_right(label, width) + ": "@ + value
}

/// The size of an image: `1234 ($04D2) bytes`.
pub open spec fn size_text(size: nat) -> Seq<char> {
    dec_text(size) + " ("@ + dollar_hex(size, 4) + ") bytes"@
}

/// The machine tag, or `(unspecified)`.
pub open spec fn tag_text(tag: Option<String>) -> Seq<char> {
    match tag {
        Some(t) => t@,
        None => "(unspecified)"@,
    }
}

/// The report on an image before it runs: its path, size, machine tag, load
/// address, start address (with the address it overrides when the run
/// starts at the RESET vector `start`), stack pointer, and the cycle limit
/// when there is one.
pub open spec fn image_info_spec(opts: &RunOptions, image: &ImageInfo, start: u16) -> Seq<Seq<char>> {
    let image_start = either_or_zero(image.start, opts.start);
    seq![
        report_line("Image"@, 0, opts.path@),
        report_line("Image size"@, 0, size_text(image.size as nat)),
        report_line("Machine tag"@, 0, tag_text(image.machine_tag)),
        report_line("Load address"@, 0, dollar_hex(either_or_zero(image.load, opts.load) as nat, 4)),
        report_line(
            "Start address"@,
            0,
            if opts.reset {
                dollar_hex(start as nat, 4) + " (RESET, overriding "@ + dollar_hex(image_start as nat, 4)
                    + ")"@
            } else {
                dollar_hex(image_start as nat, 4)
            },
        ),
        report_line(
            "Initial stack pointer"@,
            0,
            match image.sp {
                Some(sp) => dollar_hex(sp as nat, 2),
                None => "(unspecified)"@,
            },
        ),
    ] + match opts.stop_after {
        Some(n) => seq![report_line("Stop after cycles"@, 0, dec_text(n as nat))],
        None => Seq::empty(),
    }
}

/// The report on a run before it starts, labels padded to twelve columns:
/// the image, the initial registers and cycle count, the cycle limit when
/// there is one, and the three vectors.
pub open spec fn run_info_spec(opts: &RunOptions, image: &ImageInfo, cpu: CpuState, vectors: Vectors) -> Seq<Seq<char>> {
    seq![
        report_line("Image"@, 12, opts.path@),
        report_line("Image size"@, 12, size_text(image.size as nat)),
        report_line("Machine tag"@, 12, tag_text(image.machine_tag)),
        report_line("Load address"@, 12, dollar_hex(either_or_zero(image.load, opts.load) as nat, 4)),
        report_line("Initial PC"@, 12, dollar_hex(cpu.pc as nat, 4)),
        report_line("Initial A"@, 12, dollar_hex(cpu.a as nat, 2)),
        report_line("Initial X"@, 12, dollar_hex(cpu.x as nat, 2)),
        report_line("Initial Y"@, 12, dollar_hex(cpu.y as nat, 2)),
        report_line("Initial SP"@, 12, dollar_hex(cpu.sp as nat, 2)),
        report_line("Initial P"@, 12, dollar_hex(cpu.p as nat, 2)),
        report_line("Total cycles"@, 12, dec_text(cpu.total_cycles as nat)),
    ] + match opts.stop_after {
        Some(n) => seq![report_line("Stop after cycles"@, 12, dec_text(n as nat))],
        None => Seq::empty(),
    } + seq![
        report_line("NMI"@, 12, dollar_hex(vectors.nmi as nat, 4)),
        report_line("RESET"@, 12, dollar_hex(vectors.reset as nat, 4)),
        report_line("IRQ"@, 12, dollar_hex(vectors.irq as nat, 4)),
    ]
}

fn either_or_zero_exec(image: Option<u16>, option: Option<u16>) -> (r: u16)
    ensures
        r == either_or_zero(image, option),
{
    match image {
        Some(v) => v,
        None => match option {
            Some(v) => v,
            None => 0,
        },
    }
}

fn line(label: &str, width: usize, value: &str) -> (r: String)
    ensures
        r@ == report_line(label@, width as nat, value@),
{
    let mut s = String::new();
    s.append(label);
    let n = label.unicode_len();
    let mut c = n;
    while c < width
        invariant
            n == label@.len(),
            n <= c <= width || (c == n && c >= width),
            s@ == label@ + Seq::new((c - n) as nat, |i: int| ' '),
        decreases width - c,
    {
        push_char(&mut s, ' ');
        assert(s@ =~= label@ + Seq::new((c + 1 - n) as nat, |i: int| ' '));
        c += 1;
    }
    s.append(": ");
    s.append(value);
    assert(s@ =~= report_line(label@, width as nat, value@));
    s
}

fn hex_value(v: u64, width: usize) -> (r: String)
    ensures
        r@ == dollar_hex(v as nat, width as nat),
{
    let mut s = String::new();
    s.append("$");
    push_hex(&mut s, v, width);
    s
}

fn dec_value(v: u64) -> (r: String)
    ensures
        r@ == dec_text(v as nat),
{
    let mut s = String::new();
    push_dec(&mut s, v);
    s
}

fn size_value(size: usize) -> (r: String)
    ensures
        r@ == size_text(size as nat),
{
    let mut s = String::new();
    push_dec(&mut s, size as u64);
    s.append(" (");
    s.append("$");
    push_hex(&mut s, size as u64, 4);
    s.append(") bytes");
    assert(s@ =~= size_text(size as nat));
    s
}

fn tag_value(tag: &Option<String>) -> (r: String)
    ensures
        r@ == tag_text(*tag),
{
    match tag {
        Some(t) => t.clone(),
        None => {
            let mut s = String::new();
            s.append("(unspecified)");
            s
        },
    }
}

/// The report on an image before it runs (see `image_info_spec`), one
/// string per line.
pub fn show_image_info(opts: &RunOptions, image: &ImageInfo, start: u16) -> (r: Vec<String>)
    ensures
        r@.map_values(|s: String| s@) == image_info_spec(opts, image, start),
{
    let image_start = either_or_zero_exec(image.start, opts.start);
    let mut lines: Vec<String> = Vec::new();
    lines.push(line("Image", 0, opts.path.as_str()));
    lines.push(line("Image size", 0, size_value(image.size).as_str()));
    lines.push(line("Machine tag", 0, tag_value(&image.machine_tag).as_str()));
    lines.push(
        line("Load address", 0, hex_value(either_or_zero_exec(image.load, opts.load) as u64, 4).as_str()),
    );
    let start_text = if opts.reset {
        let mut s = hex_value(start as u64, 4);
        s.append(" (RESET, overriding ");
        s.append(hex_value(image_start as u64, 4).as_str());
        s.append(")");
        s
    } else {
        hex_value(image_start as u64, 4)
    };
    lines.push(line("Start address", 0, start_text.as_str()));
    let sp_text = match image.sp {
        Some(sp) => hex_value(sp as u64, 2),
        None => {
            let mut s = String::new();
            s.append("(unspecified)");
            s
        },
    };
    lines.push(line("Initial stack pointer", 0, sp_text.as_str()));
    if let Some(n) = opts.stop_after {
        lines.push(line("Stop after cycles", 0, dec_value(n).as_str()));
    }
    assert(lines@.map_values(|s: String| s@) =~= image_info_spec(opts, image, start));
    lines
}

/// The report on a run before it starts (see `run_info_spec`), one string
/// per line.
pub fn show_run_info(opts: &RunOptions, image: &ImageInfo, cpu: &CpuState, vectors: &Vectors) -> (r: Vec<String>)
    ensures
        r@.map_values(|s: String| s@) == run_info_spec(opts, image, *cpu, *vectors),
{
    let mut lines: Vec<String> = Vec::new();
    lines.push(line("Image", 12, opts.path.as_str()));
    lines.push(line("Image size", 12, size_value(image.size).as_str()));
    lines.push(line("Machine tag", 12, tag_value(&image.machine_tag).as_str()));
    lines.push(
        line("Load address", 12, hex_value(either_or_zero_exec(image.load, opts.load) as u64, 4).as_str()),
    );
    lines.push(line("Initial PC", 12, hex_value(cpu.pc as u64, 4).as_str()));
    lines.push(line("Initial A", 12, hex_value(cpu.a as u64, 2).as_str()));
    lines.push(line("Initial X", 12, hex_value(cpu.x as u64, 2).as_str()));
    lines.push(line("Initial Y", 12, hex_value(cpu.y as u64, 2).as_str()));
    lines.push(line("Initial SP", 12, hex_value(cpu.sp as u64, 2).as_str()));
    lines.push(line("Initial P", 12, hex_value(cpu.p as u64, 2).as_str()));
    lines.push(line("Total cycles", 12, dec_value(cpu.total_cycles).as_str()));
    if let Some(n) = opts.stop_after {
        lines.push(line("Stop after cycles", 12, dec_value(n).as_str()));
    }
    lines.push(line("NMI", 12, hex_value(vectors.nmi as u64, 4).as_str()));
    lines.push(line("RESET", 12, hex_value(vectors.reset as u64, 4).as_str()));
    lines.push(line("IRQ", 12, hex_value(vectors.irq as u64, 4).as_str()));
    assert(lines@.map_values(|s: String| s@) =~= run_info_spec(opts, image, *cpu, *vectors));
    lines
}

} // verus!
