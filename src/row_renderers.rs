use vstd::prelude::*;

use crate::cell_renderers::DefaultTableCellProps;
use crate::value::CellValue;

verus! {

/// What a body row is rendered from.
pub struct DefaultTableRowProps<'a> {
    pub class: String,
    /// The props of the row's cells, one per column.
    pub children: Vec<DefaultTableCellProps>,
    pub is_head: bool,
    /// The row's position among the items.
    pub index: usize,
    /// The record the row shows.
    pub item: Option<&'a Vec<CellValue>>,
}

/// A click on a body row, as reported to the table's row-click handler.
pub struct TableRowEvent<'a, E> {
    pub row_index: usize,
    /// The record the row shows.
    pub item: &'a Vec<CellValue>,
    /// The interaction that caused it, passed on untouched.
    pub event: E,
}

/// A rendered body row: a `tr` element that reports its item when clicked.
pub struct RowElement<'a> {
    pub class: String,
    pub index: usize,
    pub item: &'a Vec<CellValue>,
    pub children: Vec<DefaultTableCellProps>,
}

/// Renders a body row; every row is bound to the record it shows.
#[allow(non_snake_case)]
pub fn DefaultTableRowRenderer<'a>(props: &DefaultTableRowProps<'a>) -> (r: RowElement<'a>)
    requires
        props.item is Some,
    ensures
        r.class@ == props.class@,
        r.index == props.index,
        r.item == props.item.unwrap(),
        r.children@.len() == props.children@.len(),
        forall|j: int|
            0 <= j < r.children@.len() ==> (#[trigger] r.children@[j]).class@
                == props.children@[j].class@ && r.children@[j].value@ == props.children@[j].value@
                && r.children@[j].precision == props.children@[j].precision,
{
    let mut children: Vec<DefaultTableCellProps> = Vec::new();
    let n = props.children.len();
    let mut j: usize = 0;
    while j < n
        invariant
            n == props.children@.len(),
            j <= n,
            children@.len() == j,
            forall|k: int|
                0 <= k < j ==> (#[trigger] children@[k]).class@ == props.children@[k].class@
                    && children@[k].value@ == props.children@[k].value@
                    && children@[k].precision == props.children@[k].precision,
        decreases n - j,
    {
        children.push(props.children[j].copy());
        j = j + 1;
    }
    RowElement {
        class: props.class.clone(),
        index: props.index,
        item: props.item.unwrap(),
        children,
    }
}

impl<'a> RowElement<'a> {
    /// The event that a click on this row reports.
    pub fn click<E>(&self, event: E) -> (r: TableRowEvent<'a, E>)
        ensures
            r.row_index == self.index,
            r.item == self.item,
            r.event == event,
    {
        TableRowEvent { row_index: self.index, item: self.item, event }
    }
}

} // verus!
