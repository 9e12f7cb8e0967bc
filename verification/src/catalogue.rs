use crate::symbols::{
    chars_le, lemma_name_le_antisymmetric, lemma_name_le_total, lemma_name_le_transitive, name_le,
};
use crate::text::{chars_of, dec_text, pad_left, push_char, push_dec, seq_eq, string_of};
use vstd::prelude::*;

verus! {

/// The name and the length in bytes of a file.
pub open spec fn entry_view(e: (String, u64)) -> (Seq<char>, u64) {
    (e.0@, e.1)
}

/// Whether `a` comes no later than `b` in the order of tuples: by name, then
/// by length.
pub open spec fn entry_le(a: (Seq<char>, u64), b: (Seq<char>, u64)) -> bool {
    if a.0 == b.0 {
        a.1 <= b.1
    } else {
        name_le(a.0, b.0)
    }
}

/// `sorted` with `e` inserted after the last entry no greater than it.
pub open spec fn insert_entry(sorted: Seq<(Seq<char>, u64)>, e: (Seq<char>, u64)) -> Seq<(Seq<char>, u64)>
    decreases sorted.len(),
{
    if sorted.len() == 0 {
        seq![e]
    } else if entry_le(sorted.last(), e) {
        sorted.push(e)
    } else {
        insert_entry(sorted.drop_last(), e).push(sorted.last())
    }
}

/// The entries sorted as tuples.
pub open spec fn sort_entries(es: Seq<(Seq<char>, u64)>) -> Seq<(Seq<char>, u64)>
    decreases es.len(),
{
    if es.len() == 0 {
        Seq::empty()
    } else {
        insert_entry(sort_entries(es.drop_last()), es.last())
    }
}

/// The width of the name column: the longest name, counted in UTF-8 bytes.
pub open spec fn name_column_width(es: Seq<(Seq<char>, u64)>) -> nat
    decreases es.len(),
{
    if es.len() == 0 {
        0
    } else {
        let w = name_column_width(es.drop_last());
        let n = vstd::utf8::encode_utf8(es.last().0).len();
        if n > w {
            n
        } else {
            w
        }
    }
}

/// `s` with spaces after it until it is `width` characters long.
pub open spec fn pad_right(s: Seq<char>, width: nat) -> Seq<char> {
    if s.len() >= width {
        s
    } else {
        s + Seq::new((width - s.len()) as nat, |i: int| ' ')
    }
}

/// One line of a catalogue: the name padded to the column width, then the
/// length right-aligned in ten columns.
pub open spec fn catalogue_line(e: (Seq<char>, u64), width: nat) -> Seq<char> {
    "  "@ + pad_right(e.0, width) + "  "@ + pad_left(dec_text(e.1 as nat), 10, ' ')
}

/// The lines of a catalogue of `dir`: a heading, then the files sorted by name.
pub open spec fn catalogue_spec(dir: Seq<char>, es: Seq<(Seq<char>, u64)>) -> Seq<Seq<char>> {
    seq!["Directory: "@ + dir] + sort_entries(es).map_values(
        |e: (Seq<char>, u64)| catalogue_line(e, name_column_width(es)),
    )
}

proof fn lemma_insert_entry(s: Seq<(Seq<char>, u64)>, e: (Seq<char>, u64), j: int)
    requires
        0 <= j <= s.len(),
        j == 0 || entry_le(s[j - 1], e),
        forall|i: int| j <= i < s.len() ==> !entry_le(#[trigger] s[i], e),
    ensures
        insert_entry(s, e) == s.insert(j, e),
    decreases s.len(),
{
    if s.len() == j {
        if s.len() == 0 {
            assert(s.insert(0, e) =~= seq![e]);
        } else {
            assert(s.insert(j, e) =~= s.push(e));
        }
    } else {
        lemma_insert_entry(s.drop_last(), e, j);
        assert(s.drop_last().insert(j, e).push(s.last()) =~= s.insert(j, e));
    }
}

proof fn lemma_entry_le_total(a: (Seq<char>, u64), b: (Seq<char>, u64))
    ensures
        entry_le(a, b) || entry_le(b, a),
{
    lemma_name_le_total(a.0, b.0);
}

proof fn lemma_entry_le_transitive(a: (Seq<char>, u64), b: (Seq<char>, u64), c: (Seq<char>, u64))
    requires
        entry_le(a, b),
        entry_le(b, c),
    ensures
        entry_le(a, c),
{
    if a.0 != b.0 && b.0 != c.0 {
        lemma_name_le_transitive(a.0, b.0, c.0);
        if a.0 == c.0 {
            lemma_name_le_antisymmetric(a.0, b.0);
        }
    }
}

proof fn lemma_insert_entry_bound(s: Seq<(Seq<char>, u64)>, e: (Seq<char>, u64), b: (Seq<char>, u64))
    requires
        forall|i: int| 0 <= i < s.len() ==> entry_le(#[trigger] s[i], b),
        entry_le(e, b),
    ensures
        insert_entry(s, e).len() == s.len() + 1,
        forall|k: int| 0 <= k < insert_entry(s, e).len() ==> entry_le(#[trigger] insert_entry(s, e)[k], b),
    decreases s.len(),
{
    if s.len() > 0 && !entry_le(s.last(), e) {
        lemma_insert_entry_bound(s.drop_last(), e, b);
    }
}

/// Whether the entries are in the order of tuples.
pub open spec fn entries_in_order(s: Seq<(Seq<char>, u64)>) -> bool {
    forall|i: int, j: int| 0 <= i < j < s.len() ==> entry_le(#[trigger] s[i], #[trigger] s[j])
}

proof fn lemma_insert_entry_in_order(s: Seq<(Seq<char>, u64)>, e: (Seq<char>, u64))
    requires
        entries_in_order(s),
    ensures
        entries_in_order(insert_entry(s, e)),
        insert_entry(s, e).to_multiset() =~= s.to_multiset().insert(e),
    decreases s.len(),
{
    broadcast use vstd::seq_lib::group_to_multiset_ensures;

    if s.len() == 0 {
        assert(seq![e] =~= Seq::<(Seq<char>, u64)>::empty().push(e));
    } else if entry_le(s.last(), e) {
        let r = s.push(e);
        assert forall|i: int, j: int| 0 <= i < j < r.len() implies entry_le(
            #[trigger] r[i],
            #[trigger] r[j],
        ) by {
            if j == s.len() && i < s.len() - 1 {
                lemma_entry_le_transitive(s[i], s.last(), e);
            }
        }
    } else {
        let d = s.drop_last();
        lemma_insert_entry_in_order(d, e);
        lemma_entry_le_total(s.last(), e);
        lemma_insert_entry_bound(d, e, s.last());
        let inner = insert_entry(d, e);
        let r = inner.push(s.last());
        assert forall|i: int, j: int| 0 <= i < j < r.len() implies entry_le(
            #[trigger] r[i],
            #[trigger] r[j],
        ) by {
            if j == inner.len() {
                assert(entry_le(inner[i], s.last()));
            }
        }
        assert(s =~= d.push(s.last()));
    }
}

/// The catalogue lists each file once for each time it was given, in order
/// of name, then of length.
pub proof fn lemma_sort_entries(es: Seq<(Seq<char>, u64)>)
    ensures
        sort_entries(es).to_multiset() =~= es.to_multiset(),
        entries_in_order(sort_entries(es)),
    decreases es.len(),
{
    broadcast use vstd::seq_lib::group_to_multiset_ensures;

    if es.len() > 0 {
        lemma_sort_entries(es.drop_last());
        lemma_insert_entry_in_order(sort_entries(es.drop_last()), es.last());
        assert(es =~= es.drop_last().push(es.last()));
    }
}

fn entries_le(a: &(Vec<char>, u64), b: &(Vec<char>, u64)) -> (r: bool)
    ensures
        r == entry_le((a.0@, a.1), (b.0@, b.1)),
{
    if seq_eq(&a.0, &b.0) {
        a.1 <= b.1
    } else {
        chars_le(&a.0, &b.0)
    }
}

/// The lines that `*CAT` shows for the files of `dir`, each given by its
/// name and length (see `catalogue_spec`).
pub fn catalogue_lines(dir: &str, entries: &Vec<(String, u64)>) -> (r: Vec<String>)
    ensures
        r@.map_values(|s: String| s@) == catalogue_spec(
            dir@,
            entries@.map_values(|e: (String, u64)| entry_view(e)),
        ),
{
    let ghost all = entries@.map_values(|e: (String, u64)| entry_view(e));
    let mut width: usize = 0;
    let mut sorted: Vec<(Vec<char>, u64)> = Vec::new();
    let mut i: usize = 0;
    assert(all.take(0) =~= Seq::<(Seq<char>, u64)>::empty());
    while i < entries.len()
        invariant
            i <= entries@.len(),
            all == entries@.map_values(|e: (String, u64)| entry_view(e)),
            width == name_column_width(all.take(i as int)),
            sorted@.map_values(|e: (Vec<char>, u64)| (e.0@, e.1)) == sort_entries(all.take(i as int)),
        decreases entries@.len() - i,
    {
        let n = entries[i].0.as_str().as_bytes().len();
        let name = chars_of(entries[i].0.as_str());
        let e = (name, entries[i].1);
        let ghost ev = (e.0@, e.1);
        assert(all[i as int] == ev);
        assert(all.take(i + 1).drop_last() =~= all.take(i as int));
        assert(all.take(i + 1).last() == ev);
        if n > width {
            width = n;
        }
        let ghost before = sorted@.map_values(|e: (Vec<char>, u64)| (e.0@, e.1));
        let mut j = sorted.len();
        while j > 0 && !entries_le(&sorted[j - 1], &e)
            invariant
                j <= sorted@.len(),
                ev == (e.0@, e.1),
                before == sorted@.map_values(|e: (Vec<char>, u64)| (e.0@, e.1)),
                forall|k: int| j <= k < sorted@.len() ==> !entry_le(#[trigger] before[k], ev),
            decreases j,
        {
            assert(before[j - 1] == (sorted@[j - 1].0@, sorted@[j - 1].1));
            j -= 1;
        }
        proof {
            lemma_insert_entry(before, ev, j as int);
        }
        sorted.insert(j, e);
        assert(sorted@.map_values(|e: (Vec<char>, u64)| (e.0@, e.1)) =~= before.insert(j as int, ev));
        i += 1;
    }
    assert(all.take(i as int) =~= all);
    let ghost sv = sorted@.map_values(|e: (Vec<char>, u64)| (e.0@, e.1));
    let mut lines: Vec<String> = Vec::new();
    let mut heading = String::new();
    heading.append("Directory: ");
    heading.append(dir);
    lines.push(heading);
    let mut k: usize = 0;
    while k < sorted.len()
        invariant
            k <= sorted@.len(),
            sv == sorted@.map_values(|e: (Vec<char>, u64)| (e.0@, e.1)),
            width == name_column_width(all),
            lines@.len() == k + 1,
            lines@[0]@ == "Directory: "@ + dir@,
            forall|m: int| 0 <= m < k ==> (#[trigger] lines@[m + 1])@ == catalogue_line(sv[m], width as nat),
        decreases sorted@.len() - k,
    {
        let name = &sorted[k].0;
        let mut line = String::new();
        line.append("  ");
        let name_str = string_of(name, 0, name.len());
        assert(name@.subrange(0, name@.len() as int) =~= name@);
        line.append(name_str.as_str());
        let mut c = name.len();
        let ghost mid = line@;
        while c < width
            invariant
                name@.len() <= c <= width || (c == name@.len() && c >= width),
                line@ == mid + Seq::new((c - name@.len()) as nat, |i: int| ' '),
            decreases width - c,
        {
            push_char(&mut line, ' ');
            assert(line@ =~= mid + Seq::new((c + 1 - name@.len()) as nat, |i: int| ' '));
            c += 1;
        }
        line.append("  ");
        let mut digits = String::new();
        push_dec(&mut digits, sorted[k].1);
        let dn = digits.as_str().unicode_len();
        let ghost mid2 = line@;
        let mut d = dn;
        while d < 10
            invariant
                dn == digits@.len(),
                dn <= d <= 10 || (d == dn && d >= 10),
                line@ == mid2 + Seq::new((d - dn) as nat, |i: int| ' '),
            decreases 10 - d,
        {
            push_char(&mut line, ' ');
            assert(line@ =~= mid2 + Seq::new((d + 1 - dn) as nat, |i: int| ' '));
            d += 1;
        }
        line.append(digits.as_str());
        assert(line@ =~= catalogue_line(sv[k as int], width as nat));
        lines.push(line);
        k += 1;
    }
    let ghost spec = catalogue_spec(dir@, all);
    assert(sv == sort_entries(all));
    let ghost lv = lines@.map_values(|s: String| s@);
    assert forall|m: int| 0 <= m < lines@.len() implies #[trigger] lv[m] == spec[m] by {
        if m > 0 {
            assert(lines@[(m - 1) + 1]@ == catalogue_line(sv[m - 1], width as nat));
        }
    }
    assert(lv =~= spec);
    lines
}

} // verus!
