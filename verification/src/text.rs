use vstd::prelude::*;

verus! {

/// Calls std's `String::push`, which appends `c` to the end of `s`; the
/// contract claims exactly that of the characters of `s`.
#[verifier::external_body]
pub(crate) fn push_char(s: &mut String, c: char)
    ensures
        final(s)@ == old(s)@.push(c),
{
    s.push(c)
}

/// A `String` holding the characters of `v` in `lo..hi`.
pub fn string_of(v: &Vec<char>, lo: usize, hi: usize) -> (r: String)
    requires
        lo <= hi <= v@.len(),
    ensures
        r@ == v@.subrange(lo as int, hi as int),
{
    let mut r = String::new();
    let mut i = lo;
    while i < hi
        invariant
            lo <= i <= hi <= v@.len(),
            r@ == v@.subrange(lo as int, i as int),
        decreases hi - i,
    {
        push_char(&mut r, v[i]);
        assert(r@ =~= v@.subrange(lo as int, i + 1));
        i += 1;
    }
    r
}

/// The characters of a string slice, one per element.
pub fn chars_of(s: &str) -> (r: Vec<char>)
    ensures
        r@ == s@,
{
    let n = s.unicode_len();
    let mut r: Vec<char> = Vec::new();
    let mut i: usize = 0;
    while i < n
        invariant
            n == s@.len(),
            i <= n,
            r@ == s@.take(i as int),
        decreases n - i,
    {
        r.push(s.get_char(i));
        assert(r@ =~= s@.take(i + 1));
        i += 1;
    }
    assert(r@ =~= s@);
    r
}

/// Whether two strings hold the same characters.
pub fn str_eq(a: &str, b: &str) -> (r: bool)
    ensures
        r == (a@ == b@),
{
    let x = chars_of(a);
    let y = chars_of(b);
    seq_eq(&x, &y)
}

/// Whether two character vectors are equal.
pub fn seq_eq(x: &Vec<char>, y: &Vec<char>) -> (r: bool)
    ensures
        r == (x@ == y@),
{
    if x.len() != y.len() {
        return false;
    }
    let mut i: usize = 0;
    while i < x.len()
        invariant
            x@.len() == y@.len(),
            i <= x@.len(),
            forall|j: int| 0 <= j < i ==> x@[j] == y@[j],
        decreases x@.len() - i,
    {
        if x[i] != y[i] {
            return false;
        }
        i += 1;
    }
    assert(x@ =~= y@);
    true
}

/// Whether the characters of `v` in `lo..hi` spell `lit`.
pub fn range_eq(v: &Vec<char>, lo: usize, hi: usize, lit: &Vec<char>) -> (r: bool)
    requires
        lo <= hi <= v@.len(),
    ensures
        r == (v@.subrange(lo as int, hi as int) == lit@),
{
    if hi - lo != lit.len() {
        return false;
    }
    let mut i: usize = 0;
    while i < lit.len()
        invariant
            lo <= hi <= v@.len(),
            hi - lo == lit@.len(),
            i <= lit@.len(),
            forall|j: int| 0 <= j < i ==> v@[lo + j] == lit@[j],
        decreases lit@.len() - i,
    {
        if v[lo + i] != lit[i] {
            return false;
        }
        i += 1;
    }
    assert(v@.subrange(lo as int, hi as int) =~= lit@);
    true
}

/// The characters that Rust's `char::is_whitespace` accepts (the Unicode
/// White_Space property).
pub open spec fn is_ws(c: char) -> bool {
    let u = c as u32;
    (9 <= u <= 13) || u == 32 || u == 0x85 || u == 0xa0 || u == 0x1680 || (0x2000 <= u <= 0x200a)
        || u == 0x2028 || u == 0x2029 || u == 0x202f || u == 0x205f || u == 0x3000
}

/// Whether `c` is whitespace.
pub fn is_whitespace(c: char) -> (r: bool)
    ensures
        r == is_ws(c),
{
    let u = c as u32;
    (9 <= u && u <= 13) || u == 32 || u == 0x85 || u == 0xa0 || u == 0x1680 || (0x2000 <= u && u
        <= 0x200a) || u == 0x2028 || u == 0x2029 || u == 0x202f || u == 0x205f || u == 0x3000
}

/// Character classes that the trimming functions remove: whitespace, or one
/// particular character.
pub open spec fn in_class(c: char, ws: bool, ch: char) -> bool {
    if ws {
        is_ws(c)
    } else {
        c == ch
    }
}

fn exec_in_class(c: char, ws: bool, ch: char) -> (r: bool)
    ensures
        r == in_class(c, ws, ch),
{
    if ws {
        is_whitespace(c)
    } else {
        c == ch
    }
}

/// `s` without its leading characters of the class.
pub open spec fn trim_start_by(s: Seq<char>, ws: bool, ch: char) -> Seq<char>
    decreases s.len(),
{
    if s.len() > 0 && in_class(s[0], ws, ch) {
        trim_start_by(s.drop_first(), ws, ch)
    } else {
        s
    }
}

/// `s` without its trailing characters of the class.
pub open spec fn trim_end_by(s: Seq<char>, ws: bool, ch: char) -> Seq<char>
    decreases s.len(),
{
    if s.len() > 0 && in_class(s.last(), ws, ch) {
        trim_end_by(s.drop_last(), ws, ch)
    } else {
        s
    }
}

/// `s` without leading and trailing characters of the class (`str::trim`
/// for whitespace, `str::trim_matches(ch)` otherwise).
pub open spec fn trim_by(s: Seq<char>, ws: bool, ch: char) -> Seq<char> {
    trim_end_by(trim_start_by(s, ws, ch), ws, ch)
}

/// `s` trimmed of whitespace.
pub open spec fn trim(s: Seq<char>) -> Seq<char> {
    trim_by(s, true, ' ')
}

/// The bounds of `v[lo..hi]` trimmed of the class.
pub fn trim_range(v: &Vec<char>, lo: usize, hi: usize, ws: bool, ch: char) -> (r: (usize, usize))
    requires
        lo <= hi <= v@.len(),
    ensures
        lo <= r.0 <= r.1 <= hi,
        v@.subrange(r.0 as int, r.1 as int) == trim_by(v@.subrange(lo as int, hi as int), ws, ch),
{
    let mut i = lo;
    while i < hi && exec_in_class(v[i], ws, ch)
        invariant
            lo <= i <= hi <= v@.len(),
            trim_start_by(v@.subrange(lo as int, hi as int), ws, ch) == trim_start_by(
                v@.subrange(i as int, hi as int),
                ws,
                ch,
            ),
        decreases hi - i,
    {
        assert(v@.subrange(i as int, hi as int).drop_first() =~= v@.subrange(i + 1, hi as int));
        i += 1;
    }
    assert(trim_start_by(v@.subrange(i as int, hi as int), ws, ch) == v@.subrange(
        i as int,
        hi as int,
    ));
    let mut j = hi;
    while j > i && exec_in_class(v[j - 1], ws, ch)
        invariant
            lo <= i <= j <= hi <= v@.len(),
            trim_by(v@.subrange(lo as int, hi as int), ws, ch) == trim_end_by(
                v@.subrange(i as int, j as int),
                ws,
                ch,
            ),
        decreases j - i,
    {
        assert(v@.subrange(i as int, j as int).drop_last() =~= v@.subrange(i as int, j - 1));
        j -= 1;
    }
    (i, j)
}

/// The pieces of `s` between newlines, with `cur` already read of the first
/// one, each cleaned up by `clean_line` and kept only when not empty.
pub open spec fn lines_acc(s: Seq<char>, cur: Seq<char>) -> Seq<Seq<char>>
    decreases s.len(),
{
    if s.len() == 0 {
        keep_line(cur)
    } else if s[0] == '\n' {
        keep_line(cur) + lines_acc(s.drop_first(), Seq::empty())
    } else {
        lines_acc(s.drop_first(), cur.push(s[0]))
    }
}

/// A line trimmed of whitespace, then of dashes on both ends.
pub open spec fn clean_line(line: Seq<char>) -> Seq<char> {
    trim_by(trim(line), false, '-')
}

/// The cleaned line as a one-element sequence, or nothing when it is empty.
pub open spec fn keep_line(line: Seq<char>) -> Seq<Seq<char>> {
    if clean_line(line).len() == 0 {
        Seq::empty()
    } else {
        seq![clean_line(line)]
    }
}

/// The non-empty lines of a linker map file, each stripped of surrounding
/// whitespace and then of the dashes that underline headings.
pub open spec fn map_file_lines(s: Seq<char>) -> Seq<Seq<char>> {
    lines_acc(s, Seq::empty())
}

/// The whitespace-separated words of `s`, with `cur` already read of the first.
pub open spec fn words_acc(s: Seq<char>, cur: Seq<char>) -> Seq<Seq<char>>
    decreases s.len(),
{
    if s.len() == 0 {
        if cur.len() > 0 {
            seq![cur]
        } else {
            Seq::empty()
        }
    } else if is_ws(s[0]) {
        (if cur.len() > 0 {
            seq![cur]
        } else {
            Seq::empty()
        }) + words_acc(s.drop_first(), Seq::empty())
    } else {
        words_acc(s.drop_first(), cur.push(s[0]))
    }
}

/// The whitespace-separated words of `s` (`str::split_whitespace`).
pub open spec fn words(s: Seq<char>) -> Seq<Seq<char>> {
    words_acc(s, Seq::empty())
}

/// The words of `v`, each as a `String`.
pub fn split_whitespace(v: &Vec<char>) -> (r: Vec<String>)
    ensures
        r@.len() == words(v@).len(),
        forall|k: int| 0 <= k < r@.len() ==> r@[k]@ == words(v@)[k],
{
    let mut r: Vec<String> = Vec::new();
    let mut start: usize = 0;
    let mut i: usize = 0;
    let ghost mut done: Seq<Seq<char>> = Seq::empty();
    assert(v@.skip(0) =~= v@);
    assert(v@.subrange(0, 0) =~= Seq::<char>::empty());
    assert(done + words(v@) =~= words(v@));
    while i < v.len()
        invariant
            start <= i <= v@.len(),
            r@.len() == done.len(),
            forall|k: int| 0 <= k < r@.len() ==> r@[k]@ == done[k],
            words(v@) == done + words_acc(v@.skip(i as int), v@.subrange(start as int, i as int)),
        decreases v@.len() - i,
    {
        let ghost cur = v@.subrange(start as int, i as int);
        assert(v@.skip(i as int).drop_first() =~= v@.skip(i + 1));
        assert(v@.skip(i as int)[0] == v@[i as int]);
        if is_whitespace(v[i]) {
            if start < i {
                let w = string_of(v, start, i);
                r.push(w);
                proof {
                    done = done.push(cur);
                }
            }
            assert(v@.subrange(i + 1, i + 1) =~= Seq::<char>::empty());
            i += 1;
            start = i;
        } else {
            assert(cur.push(v@[i as int]) =~= v@.subrange(start as int, i + 1));
            i += 1;
        }
        assert(done + words_acc(v@.skip(i as int), v@.subrange(start as int, i as int))
            == words(v@));
    }
    assert(v@.skip(i as int) =~= Seq::<char>::empty());
    if start < i {
        let w = string_of(v, start, i);
        r.push(w);
        proof {
            done = done.push(v@.subrange(start as int, i as int));
        }
    }
    assert(done == words(v@));
    r
}

} // verus!

verus! {

/// The remaining lines of a linker map file, read front to back.
pub struct MapFileLines {
    lines: Vec<String>,
    pos: usize,
}

impl MapFileLines {
    #[verifier::type_invariant]
    spec fn inv(self) -> bool {
        self.pos <= self.lines@.len()
    }

    /// The lines not yet consumed.
    pub closed spec fn remaining(&self) -> Seq<Seq<char>> {
        self.lines@.skip(self.pos as int).map_values(|l: String| l@)
    }

    /// The next line, without consuming it.
    pub fn peek(&self) -> (r: Option<&str>)
        ensures
            r is None <==> self.remaining().len() == 0,
            r matches Some(l) ==> l@ == self.remaining()[0],
    {
        proof {
            use_type_invariant(self);
        }
        if self.pos < self.lines.len() {
            Some(self.lines[self.pos].as_str())
        } else {
            None
        }
    }

    /// Consumes and returns the next line.
    pub fn next(&mut self) -> (r: Option<String>)
        ensures
            r is None <==> old(self).remaining().len() == 0,
            r is None ==> final(self).remaining() == old(self).remaining(),
            r matches Some(l) ==> l@ == old(self).remaining()[0] && final(self).remaining()
                == old(self).remaining().drop_first(),
    {
        proof {
            use_type_invariant(&*self);
        }
        if self.pos < self.lines.len() {
            let l = self.lines[self.pos].clone();
            proof {
                assert(old(self).remaining().drop_first() =~= self.lines@.skip(self.pos + 1).map_values(
                    |l: String| l@,
                ));
            }
            self.pos = self.pos + 1;
            Some(l)
        } else {
            None
        }
    }
}

/// The cleaned, non-empty lines of a linker map file (see `map_file_lines`).
pub fn iter_map_file_lines(s: &str) -> (r: MapFileLines)
    ensures
        r.remaining() == map_file_lines(s@),
{
    let v = chars_of(s);
    let mut out: Vec<String> = Vec::new();
    let mut start: usize = 0;
    let mut i: usize = 0;
    let ghost mut done: Seq<Seq<char>> = Seq::empty();
    assert(v@.skip(0) =~= v@);
    assert(v@.subrange(0, 0) =~= Seq::<char>::empty());
    assert(done + map_file_lines(v@) =~= map_file_lines(v@));
    while i < v.len()
        invariant
            start <= i <= v@.len(),
            out@.len() == done.len(),
            forall|k: int| 0 <= k < out@.len() ==> out@[k]@ == done[k],
            map_file_lines(v@) == done + lines_acc(
                v@.skip(i as int),
                v@.subrange(start as int, i as int),
            ),
        decreases v@.len() - i,
    {
        let ghost cur = v@.subrange(start as int, i as int);
        assert(v@.skip(i as int).drop_first() =~= v@.skip(i + 1));
        if v[i] == '\n' {
            let (a, b) = trim_range(&v, start, i, true, ' ');
            let (c, d) = trim_range(&v, a, b, false, '-');
            assert(v@.subrange(c as int, d as int) == clean_line(cur));
            if c < d {
                let line = string_of(&v, c, d);
                out.push(line);
                proof {
                    done = done.push(clean_line(cur));
                }
            }
            assert(v@.subrange(i + 1, i + 1) =~= Seq::<char>::empty());
            i += 1;
            start = i;
        } else {
            assert(cur.push(v@[i as int]) =~= v@.subrange(start as int, i + 1));
            i += 1;
        }
    }
    let ghost cur = v@.subrange(start as int, i as int);
    assert(v@.skip(i as int) =~= Seq::<char>::empty());
    let (a, b) = trim_range(&v, start, i, true, ' ');
    let (c, d) = trim_range(&v, a, b, false, '-');
    assert(v@.subrange(c as int, d as int) == clean_line(cur));
    if c < d {
        let line = string_of(&v, c, d);
        out.push(line);
        proof {
            done = done.push(clean_line(cur));
        }
    }
    assert(map_file_lines(v@) == done);
    let r = MapFileLines { lines: out, pos: 0 };
    assert(r.remaining() =~= done);
    r
}

/// The value of a hexadecimal digit, if `c` is one.
pub open spec fn hex_digit(c: char) -> Option<nat> {
    if '0' <= c <= '9' {
        Some((c as nat - '0' as nat) as nat)
    } else if 'a' <= c <= 'f' {
        Some((c as nat - 'a' as nat + 10) as nat)
    } else if 'A' <= c <= 'F' {
        Some((c as nat - 'A' as nat + 10) as nat)
    } else {
        None
    }
}

/// Whether every character of `s` is a hexadecimal digit.
pub open spec fn all_hex(s: Seq<char>) -> bool {
    forall|i: int| 0 <= i < s.len() ==> hex_digit(#[trigger] s[i]) is Some
}

/// The number that a string of hexadecimal digits denotes.
pub open spec fn hex_value(s: Seq<char>) -> nat
    decreases s.len(),
{
    if s.len() == 0 {
        0
    } else {
        hex_value(s.drop_last()) * 16 + hex_digit(s.last()).unwrap()
    }
}

/// What `from_str_radix(s, 16)` gives for an unsigned type whose largest
/// value is `max`: an optional `+`, then at least one hexadecimal digit, and
/// a value no larger than `max`.
pub open spec fn parse_hex_spec(s: Seq<char>, max: nat) -> Option<nat> {
    let digits = if s.len() > 0 && s[0] == '+' {
        s.drop_first()
    } else {
        s
    };
    if digits.len() > 0 && all_hex(digits) && hex_value(digits) <= max {
        Some(hex_value(digits))
    } else {
        None
    }
}

fn exec_hex_digit(c: char) -> (r: Option<u64>)
    ensures
        r matches Some(d) ==> hex_digit(c) == Some(d as nat),
        r is None ==> hex_digit(c) is None,
        r matches Some(d) ==> d < 16,
{
    if '0' <= c && c <= '9' {
        Some(c as u64 - '0' as u64)
    } else if 'a' <= c && c <= 'f' {
        Some(c as u64 - 'a' as u64 + 10)
    } else if 'A' <= c && c <= 'F' {
        Some(c as u64 - 'A' as u64 + 10)
    } else {
        None
    }
}

/// Parses `v[lo..hi]` as an unsigned hexadecimal number no larger than `max`.
pub fn parse_hex(v: &Vec<char>, lo: usize, hi: usize, max: u64) -> (r: Option<u64>)
    requires
        lo <= hi <= v@.len(),
        max <= u32::MAX,
    ensures
        r matches Some(n) ==> parse_hex_spec(v@.subrange(lo as int, hi as int), max as nat) == Some(
            n as nat,
        ),
        r is None ==> parse_hex_spec(v@.subrange(lo as int, hi as int), max as nat) is None,
{
    let ghost s = v@.subrange(lo as int, hi as int);
    let mut i = lo;
    if i < hi && v[i] == '+' {
        i += 1;
    }
    let ghost digits = v@.subrange(i as int, hi as int);
    assert(digits =~= (if s.len() > 0 && s[0] == '+' {
        s.drop_first()
    } else {
        s
    }));
    if i == hi {
        return None;
    }
    let start = i;
    let mut value: u64 = 0;
    while i < hi
        invariant
            lo <= start <= i <= hi <= v@.len(),
            max <= u32::MAX,
            digits == v@.subrange(start as int, hi as int),
            parse_hex_spec(v@.subrange(lo as int, hi as int), max as nat) == (if digits.len() > 0
                && all_hex(digits) && hex_value(digits) <= max {
                Some(hex_value(digits))
            } else {
                None
            }),
            all_hex(v@.subrange(start as int, i as int)),
            hex_value(v@.subrange(start as int, i as int)) <= max ==> value == hex_value(
                v@.subrange(start as int, i as int),
            ),
            hex_value(v@.subrange(start as int, i as int)) > max ==> value > max,
            value <= u32::MAX as u64 + 1,
        decreases hi - i,
    {
        let ghost prefix = v@.subrange(start as int, i as int);
        let ghost next = v@.subrange(start as int, i + 1);
        assert(next.drop_last() =~= prefix);
        match exec_hex_digit(v[i]) {
            None => {
                assert(digits[i - start] == v@[i as int]);
                assert(!all_hex(digits));
                return None;
            },
            Some(d) => {
                assert(all_hex(next));
                if value <= max {
                    value = value * 16 + d;
                }
                if value > max {
                    value = max + 1;
                }
            },
        }
        i += 1;
    }
    assert(v@.subrange(start as int, i as int) =~= digits);
    if value > max {
        None
    } else {
        Some(value)
    }
}

} // verus!

verus! {

/// The digit character for `d` (below 16): `0` to `9`, then upper-case `A` to `F`.
pub open spec fn hex_char(d: nat) -> char {
    if d < 10 {
        (d + 48) as char
    } else {
        (d + 55) as char
    }
}

/// The digits of `v` in base `base` (2 to 16), without leading zeros (one
/// `0` for zero), upper-case beyond 9.
pub open spec fn radix_digits(v: nat, base: nat) -> Seq<char>
    decreases v,
{
    if base < 2 || v < base {
        seq![hex_char(v)]
    } else {
        proof {
            vstd::arithmetic::div_mod::lemma_div_decreases(v as int, base as int);
        }
        radix_digits(v / base, base).push(hex_char(v % base))
    }
}

/// `s` with `c` put in front until it is `width` long.
pub open spec fn pad_left(s: Seq<char>, width: nat, c: char) -> Seq<char> {
    if s.len() >= width {
        s
    } else {
        Seq::new((width - s.len()) as nat, |i: int| c) + s
    }
}

/// `v` in base `base`, zero-padded to `width` (`{:0width$X}` for 16,
/// `{:0width$b}` for 2, `{}` for 10 and width 0).
pub open spec fn radix_text(v: nat, base: nat, width: nat) -> Seq<char> {
    pad_left(radix_digits(v, base), width, '0')
}

/// `{:0width$X}`: upper-case hexadecimal, zero-padded to `width`.
pub open spec fn hex_text(v: nat, width: nat) -> Seq<char> {
    radix_text(v, 16, width)
}

/// `{}` of an unsigned integer: its decimal digits.
pub open spec fn dec_text(v: nat) -> Seq<char> {
    radix_text(v, 10, 0)
}

fn hex_char_exec(d: u64) -> (r: char)
    requires
        d < 16,
    ensures
        r == hex_char(d as nat),
{
    if d < 10 {
        ((d as u8) + 48) as char
    } else {
        ((d as u8) + 55) as char
    }
}

/// Appends `value` in base `base`, zero-padded to `width`.
pub fn push_radix(s: &mut String, value: u64, base: u64, width: usize)
    requires
        2 <= base <= 16,
    ensures
        final(s)@ == old(s)@ + radix_text(value as nat, base as nat, width as nat),
{
    let mut digits: Vec<char> = Vec::new();
    let mut cur = value;
    while cur >= base
        invariant
            2 <= base <= 16,
            radix_digits(value as nat, base as nat) == radix_digits(cur as nat, base as nat)
                + digits@,
        decreases cur,
    {
        let ghost before = digits@;
        proof {
            vstd::arithmetic::div_mod::lemma_mod_bound(cur as int, base as int);
            vstd::arithmetic::div_mod::lemma_div_decreases(cur as int, base as int);
        }
        digits.insert(0, hex_char_exec(cur % base));
        assert(radix_digits(cur as nat, base as nat) == radix_digits(
            (cur / base) as nat,
            base as nat,
        ).push(hex_char((cur % base) as nat)));
        assert(radix_digits((cur / base) as nat, base as nat) + digits@ =~= radix_digits(
            (cur / base) as nat,
            base as nat,
        ).push(hex_char((cur % base) as nat)) + before);
        cur = cur / base;
    }
    digits.insert(0, hex_char_exec(cur));
    assert(radix_digits(value as nat, base as nat) =~= digits@);
    let mut pad = digits.len();
    let ghost s0 = s@;
    while pad < width
        invariant
            digits@.len() <= pad <= width || (pad == digits@.len() && pad >= width),
            s@ == s0 + Seq::new((pad - digits@.len()) as nat, |i: int| '0'),
        decreases width - pad,
    {
        push_char(s, '0');
        assert(s@ =~= s0 + Seq::new((pad + 1 - digits@.len()) as nat, |i: int| '0'));
        pad += 1;
    }
    let mut i: usize = 0;
    let ghost s1 = s@;
    while i < digits.len()
        invariant
            i <= digits@.len(),
            s@ == s1 + digits@.take(i as int),
        decreases digits@.len() - i,
    {
        push_char(s, digits[i]);
        assert(s@ =~= s1 + digits@.take(i + 1));
        i += 1;
    }
    assert(digits@.take(i as int) =~= digits@);
    assert(s@ =~= old(s)@ + radix_text(value as nat, base as nat, width as nat));
}

/// Appends `value` in upper-case hexadecimal, zero-padded to `width`.
pub fn push_hex(s: &mut String, value: u64, width: usize)
    ensures
        final(s)@ == old(s)@ + hex_text(value as nat, width as nat),
{
    push_radix(s, value, 16, width);
}

/// Appends `value` in decimal.
pub fn push_dec(s: &mut String, value: u64)
    ensures
        final(s)@ == old(s)@ + dec_text(value as nat),
{
    push_radix(s, value, 10, 0);
}

/// The number that the digits of `s` stand for in base `base`, each digit
/// read as a hexadecimal digit.
pub open spec fn digits_value(s: Seq<char>, base: nat) -> nat
    decreases s.len(),
{
    if s.len() == 0 {
        0
    } else {
        digits_value(s.drop_last(), base) * base + hex_digit(s.last()).unwrap()
    }
}

/// Whether every character of `s` is a digit below `base`.
pub open spec fn digits_below(s: Seq<char>, base: nat) -> bool {
    forall|i: int| 0 <= i < s.len() ==> (hex_digit(#[trigger] s[i]) matches Some(d) && d < base)
}

proof fn lemma_hex_char_digit(d: nat)
    requires
        d < 16,
    ensures
        hex_digit(hex_char(d)) == Some(d),
{
}

proof fn lemma_radix_digits_value(v: nat, base: nat)
    requires
        2 <= base <= 16,
    ensures
        digits_below(radix_digits(v, base), base),
        digits_value(radix_digits(v, base), base) == v,
    decreases v,
{
    if v < base {
        lemma_hex_char_digit(v);
        let s = radix_digits(v, base);
        assert(s == seq![hex_char(v)]);
        assert(s.drop_last() =~= Seq::<char>::empty());
        assert(s.last() == hex_char(v));
        assert(digits_value(s, base) == digits_value(s.drop_last(), base) * base + v);
        assert(digits_value(Seq::<char>::empty(), base) == 0);
        let z = digits_value(s.drop_last(), base);
        assert(z == 0);
        assert(z * base + v == v) by (nonlinear_arith)
            requires
                z == 0,
        ;
        assert forall|i: int| 0 <= i < s.len() implies (hex_digit(#[trigger] s[i]) matches Some(d)
            && d < base) by {
            assert(i == 0);
        }
    } else {
        vstd::arithmetic::div_mod::lemma_div_decreases(v as int, base as int);
        vstd::arithmetic::div_mod::lemma_fundamental_div_mod(v as int, base as int);
        lemma_radix_digits_value(v / base, base);
        let head = radix_digits(v / base, base);
        let s = head.push(hex_char(v % base));
        lemma_hex_char_digit(v % base);
        assert(s.drop_last() =~= head);
        assert(radix_digits(v, base) == s);
        assert(s.last() == hex_char(v % base));
        assert(digits_value(s, base) == digits_value(head, base) * base + v % base);
        assert(digits_value(head, base) == v / base);
        assert(digits_value(s, base) == v / base * base + v % base);
        let q = v / base;
        let r = v % base;
        assert(q * base + r == v) by (nonlinear_arith)
            requires
                v == base * q + r,
        ;
        assert(digits_value(s, base) == v);
        assert forall|i: int| 0 <= i < s.len() implies (hex_digit(#[trigger] s[i]) matches Some(d)
            && d < base) by {
            if i < head.len() {
                assert(s[i] == head[i]);
            }
        }
    }
}

proof fn lemma_leading_zero(s: Seq<char>, base: nat)
    ensures
        digits_value(seq!['0'] + s, base) == digits_value(s, base),
    decreases s.len(),
{
    let t = seq!['0'] + s;
    if s.len() > 0 {
        assert(t.drop_last() =~= seq!['0'] + s.drop_last());
        assert(t.last() == s.last());
        lemma_leading_zero(s.drop_last(), base);
        let x = digits_value(s.drop_last(), base);
        assert(digits_value(t.drop_last(), base) == x);
        assert(digits_value(t, base) == digits_value(t.drop_last(), base) * base + hex_digit(
            t.last(),
        ).unwrap());
        assert(digits_value(s, base) == x * base + hex_digit(s.last()).unwrap());
    } else {
        assert(t.drop_last() =~= Seq::<char>::empty());
        assert(t.last() == '0');
        assert(hex_digit('0') == Some(0nat));
        assert(digits_value(Seq::<char>::empty(), base) == 0);
    }
}

proof fn lemma_leading_zeros(k: nat, s: Seq<char>, base: nat)
    requires
        2 <= base,
    ensures
        digits_value(Seq::new(k, |i: int| '0') + s, base) == digits_value(s, base),
        digits_below(s, base) ==> digits_below(Seq::new(k, |i: int| '0') + s, base),
    decreases k,
{
    if k > 0 {
        let rest = Seq::new((k - 1) as nat, |i: int| '0') + s;
        assert(Seq::new(k, |i: int| '0') + s =~= seq!['0'] + rest);
        lemma_leading_zeros((k - 1) as nat, s, base);
        lemma_leading_zero(rest, base);
    } else {
        assert(Seq::new(k, |i: int| '0') + s =~= s);
    }
}

/// The text of a number in base 2 to 16, padded to any width, is made of
/// digits of that base, stands for the number, and is never narrower than
/// the width asked for.
pub proof fn lemma_radix_text_value(v: nat, base: nat, width: nat)
    requires
        2 <= base <= 16,
    ensures
        digits_below(radix_text(v, base, width), base),
        digits_value(radix_text(v, base, width), base) == v,
        radix_text(v, base, width).len() >= width,
        radix_text(v, base, width).len() > 0,
{
    lemma_radix_digits_value(v, base);
    let d = radix_digits(v, base);
    if d.len() < width {
        lemma_leading_zeros((width - d.len()) as nat, d, base);
    }
}

proof fn lemma_hex_value_is_digits_value(s: Seq<char>)
    ensures
        hex_value(s) == digits_value(s, 16),
    decreases s.len(),
{
    if s.len() > 0 {
        lemma_hex_value_is_digits_value(s.drop_last());
    }
}

/// Hexadecimal text reads back as the number it was made from: parsing the
/// upper-case hexadecimal text of `v`, at any width, gives `v` whenever `v`
/// is within the bound of the parse.
pub proof fn lemma_hex_text_parses(v: nat, width: nat, max: nat)
    requires
        v <= max,
    ensures
        parse_hex_spec(hex_text(v, width), max) == Some(v),
{
    let t = hex_text(v, width);
    lemma_radix_text_value(v, 16, width);
    lemma_hex_value_is_digits_value(t);
    assert(hex_digit(t[0]) is Some);
    assert(t[0] != '+');
    assert(all_hex(t)) by {
        assert forall|i: int| 0 <= i < t.len() implies hex_digit(#[trigger] t[i]) is Some by {
            assert(hex_digit(t[i]) matches Some(d) && d < 16);
        }
    }
}

} // verus!
