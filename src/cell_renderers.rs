use vstd::prelude::*;

use crate::value::{copy_value, format_value, value_text, CellValue};

verus! {

/// What a body cell is rendered from.
pub struct DefaultTableCellProps {
    pub class: String,
    pub value: CellValue,
    /// Fractional digits shown for a numeric value.
    pub precision: Option<usize>,
}

/// A rendered body cell: a `td` element with a class and a text.
pub struct CellElement {
    pub class: String,
    pub text: String,
}

/// Renders a body cell: the props' class, and the value's text.
#[allow(non_snake_case)]
pub fn DefaultTableCellRenderer(props: &DefaultTableCellProps) -> (r: CellElement)
    ensures
        r.class@ == props.class@,
        r.text@ == value_text(props.value@, props.precision),
{
    CellElement { class: props.class.clone(), text: format_value(&props.value, props.precision) }
}

impl DefaultTableCellProps {
    /// A copy of these props.
    pub fn copy(&self) -> (r: DefaultTableCellProps)
        ensures
            r.class@ == self.class@,
            r.value@ == self.value@,
            r.precision == self.precision,
    {
        DefaultTableCellProps {
            class: self.class.clone(),
            value: copy_value(&self.value),
            precision: self.precision,
        }
    }
}

/// A click on a head cell, as reported to the table's head-click handler.
pub struct TableHeadEvent<E> {
    /// The interaction that caused it, passed on untouched.
    pub event: E,
    pub column_index: usize,
    /// The name of the column's field.
    pub field: String,
}

/// What a head cell is rendered from.
pub struct DefaultTableHeaderProps {
    pub class: String,
    /// The name of the column's field.
    pub field: String,
    pub column_index: usize,
    /// The header text.
    pub children: String,
}

/// A rendered head cell: a `th` element that reports its column when clicked.
pub struct HeaderElement {
    pub class: String,
    pub field: String,
    pub column_index: usize,
    pub children: String,
}

/// Renders a head cell from its props.
#[allow(non_snake_case)]
pub fn DefaultTableHeaderRenderer(props: &DefaultTableHeaderProps) -> (r: HeaderElement)
    ensures
        r.class@ == props.class@,
        r.field@ == props.field@,
        r.column_index == props.column_index,
        r.children@ == props.children@,
{
    HeaderElement {
        class: props.class.clone(),
        field: props.field.clone(),
        column_index: props.column_index,
        children: props.children.clone(),
    }
}

impl HeaderElement {
    /// The event that a click on this head cell reports.
    pub fn click<E>(&self, event: E) -> (r: TableHeadEvent<E>)
        ensures
            r.event == event,
            r.column_index == self.column_index,
            r.field@ == self.field@,
    {
        TableHeadEvent { event, column_index: self.column_index, field: self.field.clone() }
    }
}

} // verus!
