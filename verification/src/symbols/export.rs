use crate::export_list::ExportSortOrder;
use crate::symbols::error::MapFileError;
use crate::text::{
    hex_text, push_hex, chars_of, parse_hex, parse_hex_spec, push_char, split_whitespace, str_eq, words,
    MapFileLines,
};
use vstd::prelude::*;

verus! {

/// Whether an exported symbol labels code or data, or names a constant.
#[derive(Clone, Copy, Debug, PartialEq, Eq, Structural)]
pub enum ExportKind {
    Label,
    Constant,
}

/// The addressing size of an exported symbol.
#[derive(Clone, Copy, Debug, PartialEq, Eq, Structural)]
pub enum AddressSize {
    ZeroPage,
    Absolute,
    Far,
    Long,
}

/// One exported symbol of a linker map file.
#[derive(Debug, PartialEq, Eq)]
pub struct Export {
    pub name: String,
    pub value: u32,
    pub referenced: bool,
    pub kind: ExportKind,
    pub address_size: AddressSize,
}

/// The content of an `Export`.
pub struct ExportView {
    pub name: Seq<char>,
    pub value: u32,
    pub referenced: bool,
    pub kind: ExportKind,
    pub address_size: AddressSize,
}

impl View for Export {
    type V = ExportView;

    open spec fn view(&self) -> ExportView {
        ExportView {
            name: self.name@,
            value: self.value,
            referenced: self.referenced,
            kind: self.kind,
            address_size: self.address_size,
        }
    }
}

pub open spec fn export_views(es: Seq<Export>) -> Seq<ExportView> {
    es.map_values(|e: Export| e@)
}

/// How one entry of the export list reads: a name, a hexadecimal value of at
/// most 32 bits, and flags: an optional `R` (referenced), then `L` (label) or
/// `E` (constant), then the address size `Z`, `A`, `F` or `L`.
pub open spec fn export_spec(s0: Seq<char>, s1: Seq<char>, s2: Seq<char>) -> Result<ExportView, MapFileError> {
    match parse_hex_spec(s1, u32::MAX as nat) {
        None => Err(MapFileError::InvalidNumber),
        Some(value) => {
            let referenced = s2.len() > 0 && s2[0] == 'R';
            let s3 = if referenced {
                s2.drop_first()
            } else {
                s2
            };
            if s3.len() != 2 {
                Err(MapFileError::InvalidExportFlags)
            } else if s3[0] != 'L' && s3[0] != 'E' {
                Err(MapFileError::InvalidExportFlags)
            } else if s3[1] != 'Z' && s3[1] != 'A' && s3[1] != 'F' && s3[1] != 'L' {
                Err(MapFileError::InvalidExportFlags)
            } else {
                Ok(
                    ExportView {
                        name: s0,
                        value: value as u32,
                        referenced,
                        kind: if s3[0] == 'L' {
                            ExportKind::Label
                        } else {
                            ExportKind::Constant
                        },
                        address_size: if s3[1] == 'Z' {
                            AddressSize::ZeroPage
                        } else if s3[1] == 'A' {
                            AddressSize::Absolute
                        } else if s3[1] == 'F' {
                            AddressSize::Far
                        } else {
                            AddressSize::Long
                        },
                    },
                )
            }
        },
    }
}

/// The exports of one line of the list: three or six words, one or two entries.
pub open spec fn entry_line_spec(line: Seq<char>) -> Result<Seq<ExportView>, MapFileError> {
    let p = words(line);
    if p.len() != 3 && p.len() != 6 {
        Err(MapFileError::InvalidExportList)
    } else {
        match export_spec(p[0], p[1], p[2]) {
            Err(e) => Err(e),
            Ok(e1) => if p.len() == 6 {
                match export_spec(p[3], p[4], p[5]) {
                    Err(e) => Err(e),
                    Ok(e2) => Ok(seq![e1, e2]),
                }
            } else {
                Ok(seq![e1])
            },
        }
    }
}

/// The entries up to the end of the lines or the `Exports list by value:`
/// heading, with the number of lines read; on a bad line, the error and the
/// number of lines read, that one included.
pub open spec fn entries_spec(lines: Seq<Seq<char>>) -> Result<(Seq<ExportView>, nat), (MapFileError, nat)>
    decreases lines.len(),
{
    if lines.len() == 0 || lines[0] == "Exports list by value:"@ {
        Ok((Seq::empty(), 0))
    } else {
        match entry_line_spec(lines[0]) {
            Err(e) => Err((e, 1)),
            Ok(es) => match entries_spec(lines.drop_first()) {
                Ok((rest, k)) => Ok((es + rest, k + 1)),
                Err((e, k)) => Err((e, k + 1)),
            },
        }
    }
}

/// The number of lines before the end or the `Imports list:` heading.
pub open spec fn lines_before_imports(lines: Seq<Seq<char>>) -> nat
    decreases lines.len(),
{
    if lines.len() == 0 || lines[0] == "Imports list:"@ {
        0
    } else {
        1 + lines_before_imports(lines.drop_first())
    }
}

/// Whether `a` comes no later than `b` in the lexicographic order of
/// characters (the order of `String`'s `Ord`).
pub open spec fn name_le(a: Seq<char>, b: Seq<char>) -> bool
    decreases a.len(),
{
    if a.len() == 0 {
        true
    } else if b.len() == 0 {
        false
    } else if a[0] < b[0] {
        true
    } else if a[0] > b[0] {
        false
    } else {
        name_le(a.drop_first(), b.drop_first())
    }
}

/// Whether `a` may stay before `b` in the given order: by name, or by value.
pub open spec fn export_le(a: ExportView, b: ExportView, order: ExportSortOrder) -> bool {
    match order {
        ExportSortOrder::ByName => name_le(a.name, b.name),
        ExportSortOrder::ByValue => a.value <= b.value,
    }
}

/// `sorted` with `e` inserted after the last element that may stay before it.
pub open spec fn insert_by(sorted: Seq<ExportView>, e: ExportView, order: ExportSortOrder) -> Seq<
    ExportView,
>
    decreases sorted.len(),
{
    if sorted.len() == 0 {
        seq![e]
    } else if export_le(sorted.last(), e, order) {
        sorted.push(e)
    } else {
        insert_by(sorted.drop_last(), e, order).push(sorted.last())
    }
}

/// The stable sort of `es` in the given order (equal keys keep their order).
pub open spec fn sorted_exports(es: Seq<ExportView>, order: ExportSortOrder) -> Seq<ExportView>
    decreases es.len(),
{
    if es.len() == 0 {
        Seq::empty()
    } else {
        insert_by(sorted_exports(es.drop_last(), order), es.last(), order)
    }
}

/// The stable sort of `es` by name.
pub open spec fn sort_by_name(es: Seq<ExportView>) -> Seq<ExportView> {
    sorted_exports(es, ExportSortOrder::ByName)
}

/// What `Export::fetch_all` gives: after the `Exports list by name:` heading,
/// the entries up to `Exports list by value:`, sorted by name, and the lines
/// up to `Imports list:` skipped; or the error, with the lines consumed.
pub open spec fn export_list_spec(lines: Seq<Seq<char>>) -> Result<(Seq<ExportView>, nat), (MapFileError, nat)> {
    if !(lines.len() > 0 && lines[0] == "Exports list by name:"@) {
        Err((MapFileError::InvalidExportList, 0))
    } else {
        match entries_spec(lines.drop_first()) {
            Err((e, k)) => Err((e, k + 1)),
            Ok((es, k)) => Ok(
                (sort_by_name(es), 1 + k + lines_before_imports(lines.drop_first().skip(k as int))),
            ),
        }
    }
}

pub(crate) fn chars_le(a: &Vec<char>, b: &Vec<char>) -> (r: bool)
    ensures
        r == name_le(a@, b@),
{
    let mut i: usize = 0;
    assert(a@.skip(0) =~= a@);
    assert(b@.skip(0) =~= b@);
    while i < a.len()
        invariant
            i <= a@.len(),
            i <= b@.len(),
            name_le(a@, b@) == name_le(a@.skip(i as int), b@.skip(i as int)),
        decreases a@.len() - i,
    {
        if i == b.len() {
            return false;
        }
        let x = a[i];
        let y = b[i];
        if x < y {
            return true;
        }
        if x > y {
            return false;
        }
        assert(a@.skip(i as int).drop_first() =~= a@.skip(i + 1));
        assert(b@.skip(i as int).drop_first() =~= b@.skip(i + 1));
        i += 1;
    }
    true
}

/// `name_le` is total: of two names, one comes no later than the other.
pub proof fn lemma_name_le_total(a: Seq<char>, b: Seq<char>)
    ensures
        name_le(a, b) || name_le(b, a),
    decreases a.len(),
{
    if a.len() > 0 && b.len() > 0 && a[0] == b[0] {
        lemma_name_le_total(a.drop_first(), b.drop_first());
    }
}

/// `name_le` is transitive.
pub proof fn lemma_name_le_transitive(a: Seq<char>, b: Seq<char>, c: Seq<char>)
    requires
        name_le(a, b),
        name_le(b, c),
    ensures
        name_le(a, c),
    decreases a.len(),
{
    if a.len() > 0 && b.len() > 0 && c.len() > 0 && a[0] == b[0] && b[0] == c[0] {
        lemma_name_le_transitive(a.drop_first(), b.drop_first(), c.drop_first());
    }
}

/// `name_le` is antisymmetric: names that each come no later than the other
/// are equal.
pub proof fn lemma_name_le_antisymmetric(a: Seq<char>, b: Seq<char>)
    requires
        name_le(a, b),
        name_le(b, a),
    ensures
        a == b,
    decreases a.len(),
{
    if a.len() > 0 {
        assert(b.len() > 0);
        assert(a[0] == b[0]);
        lemma_name_le_antisymmetric(a.drop_first(), b.drop_first());
        assert(a =~= seq![a[0]] + a.drop_first());
        assert(b =~= seq![b[0]] + b.drop_first());
    } else {
        assert(b.len() == 0);
        assert(a =~= b);
    }
}

proof fn lemma_export_le_total(a: ExportView, b: ExportView, order: ExportSortOrder)
    ensures
        export_le(a, b, order) || export_le(b, a, order),
{
    lemma_name_le_total(a.name, b.name);
}

proof fn lemma_export_le_transitive(a: ExportView, b: ExportView, c: ExportView, order: ExportSortOrder)
    requires
        export_le(a, b, order),
        export_le(b, c, order),
    ensures
        export_le(a, c, order),
{
    if order == ExportSortOrder::ByName {
        lemma_name_le_transitive(a.name, b.name, c.name);
    }
}

/// Whether every export may stay before every later one.
pub open spec fn exports_in_order(s: Seq<ExportView>, order: ExportSortOrder) -> bool {
    forall|i: int, j: int| 0 <= i < j < s.len() ==> export_le(#[trigger] s[i], #[trigger] s[j], order)
}

proof fn lemma_insert_by_bound(s: Seq<ExportView>, e: ExportView, b: ExportView, order: ExportSortOrder)
    requires
        forall|i: int| 0 <= i < s.len() ==> export_le(#[trigger] s[i], b, order),
        export_le(e, b, order),
    ensures
        insert_by(s, e, order).len() == s.len() + 1,
        forall|k: int| 0 <= k < insert_by(s, e, order).len() ==> export_le(
            #[trigger] insert_by(s, e, order)[k],
            b,
            order,
        ),
    decreases s.len(),
{
    if s.len() > 0 && !export_le(s.last(), e, order) {
        lemma_insert_by_bound(s.drop_last(), e, b, order);
    }
}

proof fn lemma_insert_by_in_order(s: Seq<ExportView>, e: ExportView, order: ExportSortOrder)
    requires
        exports_in_order(s, order),
    ensures
        exports_in_order(insert_by(s, e, order), order),
        insert_by(s, e, order).to_multiset() =~= s.to_multiset().insert(e),
    decreases s.len(),
{
    broadcast use vstd::seq_lib::group_to_multiset_ensures;

    if s.len() == 0 {
        assert(seq![e] =~= Seq::<ExportView>::empty().push(e));
    } else if export_le(s.last(), e, order) {
        let r = s.push(e);
        assert forall|i: int, j: int| 0 <= i < j < r.len() implies export_le(
            #[trigger] r[i],
            #[trigger] r[j],
            order,
        ) by {
            if j == s.len() && i < s.len() - 1 {
                lemma_export_le_transitive(s[i], s.last(), e, order);
            }
        }
    } else {
        let d = s.drop_last();
        assert(exports_in_order(d, order));
        lemma_insert_by_in_order(d, e, order);
        lemma_export_le_total(s.last(), e, order);
        lemma_insert_by_bound(d, e, s.last(), order);
        let inner = insert_by(d, e, order);
        let r = inner.push(s.last());
        assert forall|i: int, j: int| 0 <= i < j < r.len() implies export_le(
            #[trigger] r[i],
            #[trigger] r[j],
            order,
        ) by {
            if j == inner.len() {
                assert(export_le(inner[i], s.last(), order));
            }
        }
        assert(s =~= d.push(s.last()));
    }
}

/// Sorting exports keeps each of them, as often as it occurs, and puts them
/// in order: each may stay before every later one (by name, or by value).
pub proof fn lemma_sorted_exports(es: Seq<ExportView>, order: ExportSortOrder)
    ensures
        sorted_exports(es, order).to_multiset() =~= es.to_multiset(),
        exports_in_order(sorted_exports(es, order), order),
    decreases es.len(),
{
    broadcast use vstd::seq_lib::group_to_multiset_ensures;

    if es.len() > 0 {
        lemma_sorted_exports(es.drop_last(), order);
        lemma_insert_by_in_order(sorted_exports(es.drop_last(), order), es.last(), order);
        assert(es =~= es.drop_last().push(es.last()));
    }
}

fn exports_le(a: &Export, b: &Export, order: ExportSortOrder) -> (r: bool)
    ensures
        r == export_le(a@, b@, order),
{
    match order {
        ExportSortOrder::ByName => chars_le(&chars_of(a.name.as_str()), &chars_of(b.name.as_str())),
        ExportSortOrder::ByValue => a.value <= b.value,
    }
}

proof fn lemma_insert_by(s: Seq<ExportView>, e: ExportView, order: ExportSortOrder, j: int)
    requires
        0 <= j <= s.len(),
        j == 0 || export_le(s[j - 1], e, order),
        forall|i: int| j <= i < s.len() ==> !export_le(#[trigger] s[i], e, order),
    ensures
        insert_by(s, e, order) == s.insert(j, e),
    decreases s.len(),
{
    if s.len() == j {
        if s.len() == 0 {
            assert(s.insert(0, e) =~= seq![e]);
        } else {
            assert(s.insert(j, e) =~= s.push(e));
        }
    } else {
        assert(!export_le(s.last(), e, order));
        lemma_insert_by(s.drop_last(), e, order, j);
        assert(s.drop_last().insert(j, e).push(s.last()) =~= s.insert(j, e));
    }
}

/// Sorts exports in the given order, keeping equal keys in their order
/// (insertion sort).
pub(crate) fn sort_exports(es: Vec<Export>, order: ExportSortOrder) -> (r: Vec<Export>)
    ensures
        export_views(r@) == sorted_exports(export_views(es@), order),
{
    let ghost all = export_views(es@);
    let mut rest = es;
    let mut out: Vec<Export> = Vec::new();
    let ghost mut i: int = 0;
    assert(all.skip(0) =~= all);
    assert(all.take(0) =~= Seq::<ExportView>::empty());
    while rest.len() > 0
        invariant
            0 <= i <= all.len(),
            export_views(rest@) == all.skip(i),
            export_views(out@) == sorted_exports(all.take(i), order),
        decreases rest@.len(),
    {
        let ghost rest_before = rest@;
        assert(export_views(rest_before).len() == all.len() - i);
        let e = rest.remove(0);
        assert(all[i] == e@) by {
            assert(export_views(rest_before)[0] == e@);
            assert(all.skip(i)[0] == all[i]);
        }
        let mut j = out.len();
        while j > 0 && !exports_le(&out[j - 1], &e, order)
            invariant
                j <= out@.len(),
                forall|k: int|
                    j <= k < out@.len() ==> !export_le(#[trigger] export_views(out@)[k], e@, order),
            decreases j,
        {
            j -= 1;
        }
        proof {
            lemma_insert_by(export_views(out@), e@, order, j as int);
            assert(all.take(i + 1).drop_last() =~= all.take(i));
        }
        let ghost before = out@;
        out.insert(j, e);
        assert(export_views(out@) =~= export_views(before).insert(j as int, e@));
        proof {
            assert(all.skip(i).drop_first() =~= all.skip(i + 1));
            assert(export_views(rest@) =~= export_views(rest_before).drop_first());
            assert(export_views(rest@) =~= all.skip(i + 1));
            i = i + 1;
        }
    }
    assert(all.take(i) =~= all);
    out
}

pub open spec fn prepend_entries(
    done: Seq<ExportView>,
    consumed: nat,
    r: Result<(Seq<ExportView>, nat), (MapFileError, nat)>,
) -> Result<(Seq<ExportView>, nat), (MapFileError, nat)> {
    match r {
        Ok((rest, k)) => Ok((done + rest, consumed + k)),
        Err((e, k)) => Err((e, consumed + k)),
    }
}

proof fn lemma_lines_before_imports_len(lines: Seq<Seq<char>>)
    ensures
        lines_before_imports(lines) <= lines.len(),
    decreases lines.len(),
{
    if lines.len() > 0 {
        lemma_lines_before_imports_len(lines.drop_first());
    }
}

proof fn lemma_entries_len(lines: Seq<Seq<char>>)
    ensures
        entries_spec(lines) matches Ok((es, k)) ==> k <= lines.len(),
        entries_spec(lines) matches Err((e, k)) ==> k <= lines.len(),
    decreases lines.len(),
{
    if lines.len() > 0 {
        lemma_entries_len(lines.drop_first());
    }
}

impl Export {
    /// Reads one entry of the export list from its three words.
    pub fn parse_export(s0: &String, s1: &String, s2: &String) -> (r: Result<Export, MapFileError>)
        ensures
            r matches Ok(e) ==> export_spec(s0@, s1@, s2@) == Ok::<ExportView, MapFileError>(e@),
            r matches Err(err) ==> export_spec(s0@, s1@, s2@) == Err::<ExportView, MapFileError>(
                err,
            ),
    {
        let v1 = chars_of(s1.as_str());
        assert(v1@.subrange(0, v1@.len() as int) =~= v1@);
        let value = match parse_hex(&v1, 0, v1.len(), 0xffff_ffff) {
            Some(n) => n as u32,
            None => return Err(MapFileError::InvalidNumber),
        };
        let v2 = chars_of(s2.as_str());
        let referenced = v2.len() > 0 && v2[0] == 'R';
        let start: usize = if referenced {
            1
        } else {
            0
        };
        let ghost s3 = if referenced {
            v2@.drop_first()
        } else {
            v2@
        };
        assert(s3 =~= v2@.skip(start as int));
        if v2.len() - start != 2 {
            return Err(MapFileError::InvalidExportFlags);
        }
        let c0 = v2[start];
        let c1 = v2[start + 1];
        assert(c0 == s3[0] && c1 == s3[1]);
        let kind = if c0 == 'L' {
            ExportKind::Label
        } else if c0 == 'E' {
            ExportKind::Constant
        } else {
            return Err(MapFileError::InvalidExportFlags);
        };
        let address_size = if c1 == 'Z' {
            AddressSize::ZeroPage
        } else if c1 == 'A' {
            AddressSize::Absolute
        } else if c1 == 'F' {
            AddressSize::Far
        } else if c1 == 'L' {
            AddressSize::Long
        } else {
            return Err(MapFileError::InvalidExportFlags);
        };
        Ok(Export { name: s0.clone(), value, referenced, kind, address_size })
    }

    /// Reads the entries of one line of the export list.
    fn parse_line(line: &String, exports: &mut Vec<Export>) -> (r: Result<(), MapFileError>)
        ensures
            r is Ok ==> (entry_line_spec(line@) matches Ok(es) && export_views(final(exports)@)
                == export_views(old(exports)@) + es),
            r matches Err(e) ==> entry_line_spec(line@) == Err::<Seq<ExportView>, MapFileError>(e),
    {
        let v = chars_of(line.as_str());
        let parts = split_whitespace(&v);
        let len = parts.len();
        if len != 3 && len != 6 {
            return Err(MapFileError::InvalidExportList);
        }
        let e1 = match Export::parse_export(&parts[0], &parts[1], &parts[2]) {
            Ok(e) => e,
            Err(e) => return Err(e),
        };
        if len == 6 {
            let e2 = match Export::parse_export(&parts[3], &parts[4], &parts[5]) {
                Ok(e) => e,
                Err(e) => return Err(e),
            };
            let ghost before = exports@;
            exports.push(e1);
            exports.push(e2);
            assert(export_views(exports@) =~= export_views(before) + seq![e1@, e2@]);
        } else {
            let ghost before = exports@;
            exports.push(e1);
            assert(export_views(exports@) =~= export_views(before) + seq![e1@]);
        }
        Ok(())
    }

    /// Reads entry lines up to the end or the `Exports list by value:` heading.
    fn read_entries(lines: &mut MapFileLines) -> (r: Result<Vec<Export>, MapFileError>)
        ensures
            r matches Ok(es) ==> (entries_spec(old(lines).remaining()) matches Ok((ev, k))
                && export_views(es@) == ev && final(lines).remaining() == old(
                lines,
            ).remaining().skip(k as int)),
            r matches Err(e) ==> (entries_spec(old(lines).remaining()) matches Err((e2, k)) && e
                == e2 && final(lines).remaining() == old(lines).remaining().skip(k as int)),
    {
        let ghost l1 = lines.remaining();
        let ghost mut consumed: nat = 0;
        let mut exports: Vec<Export> = Vec::new();
        assert(l1.skip(0) =~= l1);
        assert(export_views(exports@) =~= Seq::<ExportView>::empty());
        assert(prepend_entries(Seq::empty(), 0, entries_spec(l1)) =~= entries_spec(l1)) by {
            match entries_spec(l1) {
                Ok((rest, k)) => {
                    assert(Seq::<ExportView>::empty() + rest =~= rest);
                },
                Err(_) => {},
            }
        }
        loop
            invariant
                l1 == old(lines).remaining(),
                consumed <= l1.len(),
                lines.remaining() == l1.skip(consumed as int),
                entries_spec(l1) == prepend_entries(
                    export_views(exports@),
                    consumed,
                    entries_spec(lines.remaining()),
                ),
            ensures
                lines.remaining() == l1.skip(consumed as int),
                entries_spec(l1) == Ok::<(Seq<ExportView>, nat), (MapFileError, nat)>(
                    (export_views(exports@), consumed),
                ),
            decreases lines.remaining().len(),
        {
            let ghost before = lines.remaining();
            let stop = match lines.peek() {
                None => true,
                Some(s) => str_eq(s, "Exports list by value:"),
            };
            if stop {
                assert(export_views(exports@) + Seq::<ExportView>::empty() =~= export_views(
                    exports@,
                ));
                break;
            }
            let line = match lines.next() {
                Some(l) => l,
                None => {
                    return Err(MapFileError::InvalidExportList);
                },
            };
            proof {
                assert(l1.skip((consumed + 1) as int) =~= before.drop_first());
            }
            let ghost exports_before = export_views(exports@);
            match Export::parse_line(&line, &mut exports) {
                Ok(()) => {},
                Err(e) => {
                    proof {
                        assert(before[0] != "Exports list by value:"@);
                        assert(entries_spec(before) == Err::<
                            (Seq<ExportView>, nat),
                            (MapFileError, nat),
                        >((e, 1)));
                        assert(entries_spec(l1) == Err::<
                            (Seq<ExportView>, nat),
                            (MapFileError, nat),
                        >((e, consumed + 1)));
                        assert(lines.remaining() == l1.skip((consumed + 1) as int));
                    }
                    return Err(e);
                },
            }
            proof {
                let es = entry_line_spec(before[0])->Ok_0;
                match entries_spec(before.drop_first()) {
                    Ok((rest, k)) => {
                        assert(exports_before + (es + rest) =~= export_views(exports@) + rest);
                    },
                    Err(_) => {},
                }
                consumed = consumed + 1;
            }
        }
        Ok(exports)
    }

    /// Skips lines up to the end or the `Imports list:` heading.
    fn skip_to_imports(lines: &mut MapFileLines)
        ensures
            final(lines).remaining() == old(lines).remaining().skip(
                lines_before_imports(old(lines).remaining()) as int,
            ),
    {
        let ghost at_value = lines.remaining();
        let ghost mut skipped: nat = 0;
        assert(at_value.skip(0) =~= at_value);
        loop
            invariant
                lines.remaining() == at_value.skip(skipped as int),
                skipped <= at_value.len(),
                skipped + lines_before_imports(lines.remaining()) == lines_before_imports(
                    at_value,
                ),
            ensures
                lines.remaining() == at_value.skip(skipped as int),
                skipped == lines_before_imports(at_value),
            decreases lines.remaining().len(),
        {
            let stop = match lines.peek() {
                None => true,
                Some(s) => str_eq(s, "Imports list:"),
            };
            if stop {
                break;
            }
            let ghost before = lines.remaining();
            let _ = lines.next();
            proof {
                assert(at_value.skip((skipped + 1) as int) =~= before.drop_first());
                skipped = skipped + 1;
            }
        }
    }

    /// Reads the export list: the `Exports list by name:` heading and the
    /// entries after it up to `Exports list by value:`, then skips to the
    /// `Imports list:` heading; the exports come back sorted by name.
    pub fn fetch_all(lines: &mut MapFileLines) -> (r: Result<Vec<Export>, MapFileError>)
        ensures
            r matches Ok(es) ==> (export_list_spec(old(lines).remaining()) matches Ok((ev, k))
                && export_views(es@) == ev && final(lines).remaining() == old(
                lines,
            ).remaining().skip(k as int)),
            r matches Err(e) ==> (export_list_spec(old(lines).remaining()) matches Err((e2, k))
                && e == e2 && final(lines).remaining() == old(lines).remaining().skip(k as int)),
    {
        let ghost lines0 = lines.remaining();
        let is_heading = match lines.peek() {
            Some(s) => str_eq(s, "Exports list by name:"),
            None => false,
        };
        if !is_heading {
            assert(lines0.skip(0) =~= lines0);
            return Err(MapFileError::InvalidExportList);
        }
        let _ = lines.next();
        let ghost l1 = lines.remaining();
        assert(l1 == lines0.drop_first());
        proof {
            lemma_entries_len(l1);
        }
        let exports = match Export::read_entries(lines) {
            Ok(es) => es,
            Err(e) => {
                proof {
                    let k = entries_spec(l1)->Err_0.1;
                    assert(l1.skip(k as int) =~= lines0.skip(k + 1 as int));
                }
                return Err(e);
            },
        };
        let ghost k = entries_spec(l1)->Ok_0.1;
        let ghost at_value = lines.remaining();
        Export::skip_to_imports(lines);
        let sorted = sort_exports(exports, ExportSortOrder::ByName);
        proof {
            lemma_lines_before_imports_len(at_value);
            assert(at_value =~= lines0.drop_first().skip(k as int));
            assert(lines.remaining() =~= lines0.skip(
                (1 + k + lines_before_imports(at_value)) as int,
            ));
        }
        Ok(sorted)
    }
}

/// The number of hexadecimal digits an address of this size is shown with.
pub open spec fn address_width(size: AddressSize) -> nat {
    match size {
        AddressSize::ZeroPage => 2,
        AddressSize::Absolute => 4,
        AddressSize::Far => 6,
        AddressSize::Long => 8,
    }
}

/// How an export is shown: `NAME = $VALUE (label)`, the value in
/// upper-case hexadecimal padded to the width of its address size, and
/// ` (unreferenced)` after it when nothing references the symbol.
pub open spec fn export_text(e: ExportView) -> Seq<char> {
    e.name + " = $"@ + hex_text(e.value as nat, address_width(e.address_size)) + " "@ + (
    match e.kind {
        ExportKind::Label => "(label)"@,
        ExportKind::Constant => "(constant)"@,
    }) + (if e.referenced {
        Seq::empty()
    } else {
        " (unreferenced)"@
    })
}

impl Export {
    /// The export as text (see `export_text`).
    pub fn to_string(&self) -> (r: String)
        ensures
            r@ == export_text(self@),
    {
        let mut s = self.name.clone();
        s.append(" = $");
        let width: usize = match self.address_size {
            AddressSize::ZeroPage => 2,
            AddressSize::Absolute => 4,
            AddressSize::Far => 6,
            AddressSize::Long => 8,
        };
        push_hex(&mut s, self.value as u64, width);
        s.append(" ");
        match self.kind {
            ExportKind::Label => s.append("(label)"),
            ExportKind::Constant => s.append("(constant)"),
        }
        if !self.referenced {
            s.append(" (unreferenced)");
        }
        assert(s@ =~= export_text(self@));
        s
    }
}

} // verus!
