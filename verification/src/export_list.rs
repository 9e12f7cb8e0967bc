use crate::symbols::{export_text, export_views, sort_exports, sorted_exports, Export, ExportView};
use vstd::prelude::*;

verus! {

/// The order in which an export list is shown.
#[derive(Clone, Copy, Debug, PartialEq, Eq, Structural)]
pub enum ExportSortOrder {
    ByName,
    ByValue,
}

/// The exports shown one per line (see `export_text`), joined by newlines.
pub open spec fn export_lines(es: Seq<ExportView>) -> Seq<char>
    decreases es.len(),
{
    if es.len() == 0 {
        Seq::empty()
    } else if es.len() == 1 {
        export_text(es[0])
    } else {
        export_lines(es.drop_last()) + "\n"@ + export_text(es.last())
    }
}

/// The list of `es` in the given order.
pub open spec fn export_list_text(es: Seq<ExportView>, order: ExportSortOrder) -> Seq<char> {
    export_lines(sorted_exports(es, order))
}

/// The other order.
pub open spec fn other_order(order: ExportSortOrder) -> ExportSortOrder {
    match order {
        ExportSortOrder::ByName => ExportSortOrder::ByValue,
        ExportSortOrder::ByValue => ExportSortOrder::ByName,
    }
}

/// The content of an `ExportListInfo`: the order shown last, and the two
/// lists.
pub struct ExportListView {
    pub order: ExportSortOrder,
    pub by_name: Seq<char>,
    pub by_value: Seq<char>,
}

/// An export list prepared in both orders, with the order shown last.
pub struct ExportListInfo {
    current_sort_order: ExportSortOrder,
    by_name: String,
    by_value: String,
}

impl View for ExportListInfo {
    type V = ExportListView;

    closed spec fn view(&self) -> ExportListView {
        ExportListView {
            order: self.current_sort_order,
            by_name: self.by_name@,
            by_value: self.by_value@,
        }
    }
}

fn copy_export(e: &Export) -> (r: Export)
    ensures
        r@ == e@,
{
    Export {
        name: e.name.clone(),
        value: e.value,
        referenced: e.referenced,
        kind: e.kind,
        address_size: e.address_size,
    }
}

fn copy_exports(es: &Vec<Export>) -> (r: Vec<Export>)
    ensures
        export_views(r@) == export_views(es@),
{
    let mut r: Vec<Export> = Vec::new();
    let mut i: usize = 0;
    while i < es.len()
        invariant
            i <= es@.len(),
            r@.len() == i,
            forall|k: int| 0 <= k < i ==> (#[trigger] r@[k])@ == es@[k]@,
        decreases es@.len() - i,
    {
        r.push(copy_export(&es[i]));
        i += 1;
    }
    assert(export_views(r@) =~= export_views(es@));
    r
}

fn format_exports(es: &Vec<Export>) -> (r: String)
    ensures
        r@ == export_lines(export_views(es@)),
{
    let mut s = String::new();
    let mut i: usize = 0;
    while i < es.len()
        invariant
            i <= es@.len(),
            s@ == export_lines(export_views(es@).take(i as int)),
        decreases es@.len() - i,
    {
        let ghost before = s@;
        let ghost vs = export_views(es@);
        if i > 0 {
            s.append("\n");
        }
        let line = es[i].to_string();
        s.append(line.as_str());
        assert(vs.take(i + 1).drop_last() =~= vs.take(i as int));
        assert(s@ == export_lines(vs.take(i + 1)));
        i += 1;
    }
    assert(export_views(es@).take(i as int) =~= export_views(es@));
    s
}

impl ExportListInfo {
    /// Prepares the list of `exports` by name and by value; the order shown
    /// last starts as by value, so that the first `toggle` shows it by name.
    pub fn new(exports: &Vec<Export>) -> (r: ExportListInfo)
        ensures
            r@.order == ExportSortOrder::ByValue,
            r@.by_name == export_list_text(export_views(exports@), ExportSortOrder::ByName),
            r@.by_value == export_list_text(export_views(exports@), ExportSortOrder::ByValue),
    {
        let by_name = sort_exports(copy_exports(exports), ExportSortOrder::ByName);
        let by_value = sort_exports(copy_exports(exports), ExportSortOrder::ByValue);
        ExportListInfo {
            current_sort_order: ExportSortOrder::ByValue,
            by_name: format_exports(&by_name),
            by_value: format_exports(&by_value),
        }
    }

    /// Switches to the other order and returns the list in it.
    pub fn toggle(&mut self) -> (r: &str)
        ensures
            final(self)@.order == other_order(old(self)@.order),
            final(self)@.by_name == old(self)@.by_name,
            final(self)@.by_value == old(self)@.by_value,
            r@ == match final(self)@.order {
                ExportSortOrder::ByName => old(self)@.by_name,
                ExportSortOrder::ByValue => old(self)@.by_value,
            },
    {
        match self.current_sort_order {
            ExportSortOrder::ByName => {
                self.current_sort_order = ExportSortOrder::ByValue;
                self.by_value.as_str()
            },
            ExportSortOrder::ByValue => {
                self.current_sort_order = ExportSortOrder::ByName;
                self.by_name.as_str()
            },
        }
    }
}

/// Toggling twice comes back to the order it started from, and a toggle
/// always changes the order: the lists shown alternate.
pub proof fn lemma_toggle_twice(order: ExportSortOrder)
    ensures
        other_order(other_order(order)) == order,
        other_order(order) != order,
{
}

/// The order an export list is in after `k` toggles from `new`.
pub open spec fn order_after(k: nat) -> ExportSortOrder
    decreases k,
{
    if k == 0 {
        ExportSortOrder::ByValue
    } else {
        other_order(order_after((k - 1) as nat))
    }
}

/// The text that a toggle returns when the list is in `order` before it.
pub open spec fn toggle_text(v: ExportListView, order: ExportSortOrder) -> Seq<char> {
    match other_order(order) {
        ExportSortOrder::ByName => v.by_name,
        ExportSortOrder::ByValue => v.by_value,
    }
}

/// The toggles of a list fresh from `new` alternate: after `k` toggles the
/// next one returns the list by name when `k` is even and by value when `k`
/// is odd, so two toggles in a row return the two lists and every second one
/// the same text.
pub proof fn lemma_toggle_alternates(v: ExportListView, k: nat)
    ensures
        order_after(k) == (if k % 2 == 0 {
            ExportSortOrder::ByValue
        } else {
            ExportSortOrder::ByName
        }),
        toggle_text(v, order_after(k)) == (if k % 2 == 0 {
            v.by_name
        } else {
            v.by_value
        }),
        toggle_text(v, order_after(k + 2)) == toggle_text(v, order_after(k)),
    decreases k,
{
    if k > 0 {
        lemma_toggle_alternates(v, (k - 1) as nat);
    }
    assert(order_after(k + 1) == other_order(order_after(k)));
    assert(order_after(k + 2) == other_order(order_after(k + 1)));
}

} // verus!
